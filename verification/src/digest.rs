//! Nullifier derivation: the deterministic, domain-separated hash of a proof
//! secret that uniquely identifies the proof for spent-set purposes.

use vstd::prelude::*;
use sha2::Digest;
use crate::bytes::push_bytes;

verus! {

/// The SHA-256 digest of a byte string. The algorithm is not restated here;
/// the name stands for whatever `sha2` computes, which depends on the input
/// bytes alone.
pub uninterp spec fn sha256_of(data: Seq<u8>) -> Seq<u8>;

/// Relies on `sha2::Sha256` (SHA-256 of FIPS 180-4): the digest is a
/// function of the input bytes alone and is 32 bytes long.
#[verifier::external_body]
pub fn sha256(data: &Vec<u8>) -> (r: Vec<u8>)
    ensures
        r@ == sha256_of(data@),
        r@.len() == 32,
{
    sha2::Sha256::digest(data.as_slice()).to_vec()
}

/// The domain-separation tag prefixed to the inner digest, the bytes of
/// `"ecashHTC"`.
pub open spec fn domain_tag() -> Seq<u8> {
    seq![0x65u8, 0x63u8, 0x61u8, 0x73u8, 0x68u8, 0x48u8, 0x54u8, 0x43u8]
}

fn domain_tag_vec() -> (r: Vec<u8>)
    ensures
        r@ == domain_tag(),
{
    let mut v: Vec<u8> = Vec::new();
    v.push(0x65u8);
    v.push(0x63u8);
    v.push(0x61u8);
    v.push(0x73u8);
    v.push(0x68u8);
    v.push(0x48u8);
    v.push(0x54u8);
    v.push(0x43u8);
    proof {
        assert(v@ =~= domain_tag());
    }
    v
}

/// The nullifier `Y` of a secret: a compressed-point-shaped 33-byte string,
/// derived by a domain-separated double hash of the secret.
pub open spec fn nullifier_of(secret: Seq<u8>) -> Seq<u8> {
    seq![2u8] + sha256_of(domain_tag() + sha256_of(secret))
}

/// Computes the nullifier of a proof secret.
pub fn compute_nullifier(secret: &Vec<u8>) -> (r: Vec<u8>)
    ensures
        r@ == nullifier_of(secret@),
        r@.len() == 33,
{
    let inner = sha256(secret);
    let mut buf = domain_tag_vec();
    push_bytes(&mut buf, &inner);
    let outer = sha256(&buf);
    let mut r: Vec<u8> = Vec::new();
    r.push(2u8);
    push_bytes(&mut r, &outer);
    proof {
        assert(r@ =~= nullifier_of(secret@));
    }
    r
}

} // verus!

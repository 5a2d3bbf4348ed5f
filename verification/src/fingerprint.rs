//! Request fingerprints for the response cache.
//!
//! The fingerprint is a deterministic 64-bit FNV-1a hash over a canonical
//! byte serialization of the request (fixed field order, length-prefixed
//! variable fields), so idempotence does not depend on any platform- or
//! library-specific formatting.

use vstd::prelude::*;
use crate::bytes::{u64_le_bytes, push_u64_le, push_bytes};
use crate::protocol::{Proof, BlindedMessage, SwapRequest, MintRequest, MeltRequest};

verus! {

pub const FNV_OFFSET_BASIS: u64 = 0xcbf2_9ce4_8422_2325;

pub const FNV_PRIME: u64 = 0x100_0000_01b3;

/// One FNV-1a round: fold a byte in, then multiply modulo `2^64`.
pub open spec fn fnv1a_step(h: u64, b: u8) -> u64 {
    vstd::wrapping::u64_specs::wrapping_mul(h ^ (b as u64), FNV_PRIME)
}

/// The FNV-1a 64-bit hash of a byte string.
pub open spec fn fnv1a(s: Seq<u8>) -> u64
    decreases s.len(),
{
    if s.len() == 0 {
        FNV_OFFSET_BASIS
    } else {
        fnv1a_step(fnv1a(s.drop_last()), s.last())
    }
}

/// Computes the FNV-1a 64-bit hash of `data`.
pub fn fnv1a_hash(data: &Vec<u8>) -> (r: u64)
    ensures
        r == fnv1a(data@),
{
    let mut h: u64 = FNV_OFFSET_BASIS;
    let n = data.len();
    let mut i: usize = 0;
    proof {
        assert(data@.subrange(0, 0) =~= Seq::<u8>::empty());
    }
    while i < n
        invariant
            n == data@.len(),
            i <= n,
            h == fnv1a(data@.subrange(0, i as int)),
        decreases n - i,
    {
        proof {
            assert(data@.subrange(0, i + 1).drop_last() =~= data@.subrange(0, i as int));
        }
        h = (h ^ (data[i] as u64)).wrapping_mul(FNV_PRIME);
        i = i + 1;
    }
    proof {
        assert(data@.subrange(0, n as int) =~= data@);
    }
    h
}

/// Canonical bytes of one proof.
pub open spec fn canon_proof(p: Proof) -> Seq<u8> {
    u64_le_bytes(p.amount) + u64_le_bytes(p.keyset_id) + u64_le_bytes(p.secret@.len() as u64)
        + p.secret@ + u64_le_bytes(p.c@.len() as u64) + p.c@
}

/// Canonical bytes of a proof list.
pub open spec fn canon_proofs(s: Seq<Proof>) -> Seq<u8>
    decreases s.len(),
{
    if s.len() == 0 {
        Seq::empty()
    } else {
        canon_proofs(s.drop_last()) + canon_proof(s.last())
    }
}

/// Canonical bytes of one blinded message.
pub open spec fn canon_message(m: BlindedMessage) -> Seq<u8> {
    u64_le_bytes(m.amount) + u64_le_bytes(m.keyset_id)
        + u64_le_bytes(m.blinded_secret@.len() as u64) + m.blinded_secret@
}

/// Canonical bytes of a blinded-message list.
pub open spec fn canon_messages(s: Seq<BlindedMessage>) -> Seq<u8>
    decreases s.len(),
{
    if s.len() == 0 {
        Seq::empty()
    } else {
        canon_messages(s.drop_last()) + canon_message(s.last())
    }
}

/// The sixteen little-endian bytes of a 128-bit quote id.
pub open spec fn u128_le_bytes(x: u128) -> Seq<u8> {
    u64_le_bytes(x as u64) + u64_le_bytes((x >> 64) as u64)
}

/// Canonical bytes of a swap request.
pub open spec fn canon_swap_request(inputs: Seq<Proof>, outputs: Seq<BlindedMessage>) -> Seq<u8> {
    u64_le_bytes(inputs.len() as u64) + canon_proofs(inputs)
        + u64_le_bytes(outputs.len() as u64) + canon_messages(outputs)
}

/// Canonical bytes of a mint request.
pub open spec fn canon_mint_request(quote: u128, outputs: Seq<BlindedMessage>) -> Seq<u8> {
    u128_le_bytes(quote) + u64_le_bytes(outputs.len() as u64) + canon_messages(outputs)
}

/// Canonical bytes of a melt request.
pub open spec fn canon_melt_request(quote: u128, inputs: Seq<Proof>) -> Seq<u8> {
    u128_le_bytes(quote) + u64_le_bytes(inputs.len() as u64) + canon_proofs(inputs)
}

/// Appends the canonical bytes of one proof.
fn push_canon_proof(out: &mut Vec<u8>, p: &Proof)
    ensures
        final(out)@ == old(out)@ + canon_proof(*p),
{
    push_u64_le(out, p.amount);
    push_u64_le(out, p.keyset_id);
    push_u64_le(out, p.secret.len() as u64);
    push_bytes(out, &p.secret);
    push_u64_le(out, p.c.len() as u64);
    push_bytes(out, &p.c);
    proof {
        assert(out@ =~= old(out)@ + canon_proof(*p));
    }
}

/// Appends the canonical bytes of one blinded message.
fn push_canon_message(out: &mut Vec<u8>, m: &BlindedMessage)
    ensures
        final(out)@ == old(out)@ + canon_message(*m),
{
    push_u64_le(out, m.amount);
    push_u64_le(out, m.keyset_id);
    push_u64_le(out, m.blinded_secret.len() as u64);
    push_bytes(out, &m.blinded_secret);
    proof {
        assert(out@ =~= old(out)@ + canon_message(*m));
    }
}

/// Appends the canonical bytes of a proof list.
fn push_canon_proofs(out: &mut Vec<u8>, s: &Vec<Proof>)
    ensures
        final(out)@ == old(out)@ + canon_proofs(s@),
{
    let n = s.len();
    let mut i: usize = 0;
    proof {
        assert(s@.subrange(0, 0) =~= Seq::<Proof>::empty());
        assert(out@ =~= old(out)@ + canon_proofs(s@.subrange(0, 0)));
    }
    while i < n
        invariant
            n == s@.len(),
            i <= n,
            out@ == old(out)@ + canon_proofs(s@.subrange(0, i as int)),
        decreases n - i,
    {
        push_canon_proof(out, &s[i]);
        proof {
            assert(s@.subrange(0, i + 1).drop_last() =~= s@.subrange(0, i as int));
            assert(s@.subrange(0, i + 1).last() == s@[i as int]);
            assert(out@ =~= old(out)@ + canon_proofs(s@.subrange(0, i + 1)));
        }
        i = i + 1;
    }
    proof {
        assert(s@.subrange(0, n as int) =~= s@);
    }
}

/// Appends the canonical bytes of a blinded-message list.
fn push_canon_messages(out: &mut Vec<u8>, s: &Vec<BlindedMessage>)
    ensures
        final(out)@ == old(out)@ + canon_messages(s@),
{
    let n = s.len();
    let mut i: usize = 0;
    proof {
        assert(s@.subrange(0, 0) =~= Seq::<BlindedMessage>::empty());
        assert(out@ =~= old(out)@ + canon_messages(s@.subrange(0, 0)));
    }
    while i < n
        invariant
            n == s@.len(),
            i <= n,
            out@ == old(out)@ + canon_messages(s@.subrange(0, i as int)),
        decreases n - i,
    {
        push_canon_message(out, &s[i]);
        proof {
            assert(s@.subrange(0, i + 1).drop_last() =~= s@.subrange(0, i as int));
            assert(s@.subrange(0, i + 1).last() == s@[i as int]);
            assert(out@ =~= old(out)@ + canon_messages(s@.subrange(0, i + 1)));
        }
        i = i + 1;
    }
    proof {
        assert(s@.subrange(0, n as int) =~= s@);
    }
}

/// Appends the little-endian encoding of a 128-bit quote id.
fn push_u128_le(out: &mut Vec<u8>, x: u128)
    ensures
        final(out)@ == old(out)@ + u128_le_bytes(x),
{
    push_u64_le(out, x as u64);
    push_u64_le(out, (x >> 64) as u64);
    proof {
        assert(out@ =~= old(out)@ + u128_le_bytes(x));
    }
}

/// The fingerprint of a swap request.
pub fn hash_swap_request_http(request: &SwapRequest) -> (r: u64)
    ensures
        r == fnv1a(canon_swap_request(request.inputs@, request.outputs@)),
{
    let mut buf: Vec<u8> = Vec::new();
    push_u64_le(&mut buf, request.inputs.len() as u64);
    push_canon_proofs(&mut buf, &request.inputs);
    push_u64_le(&mut buf, request.outputs.len() as u64);
    push_canon_messages(&mut buf, &request.outputs);
    proof {
        assert(buf@ =~= canon_swap_request(request.inputs@, request.outputs@));
    }
    fnv1a_hash(&buf)
}

/// The fingerprint of a mint request.
pub fn hash_mint_request_http(request: &MintRequest) -> (r: u64)
    ensures
        r == fnv1a(canon_mint_request(request.quote, request.outputs@)),
{
    let mut buf: Vec<u8> = Vec::new();
    push_u128_le(&mut buf, request.quote);
    push_u64_le(&mut buf, request.outputs.len() as u64);
    push_canon_messages(&mut buf, &request.outputs);
    proof {
        assert(buf@ =~= canon_mint_request(request.quote, request.outputs@));
    }
    fnv1a_hash(&buf)
}

/// The fingerprint of a melt request.
pub fn hash_melt_request_http(request: &MeltRequest) -> (r: u64)
    ensures
        r == fnv1a(canon_melt_request(request.quote, request.inputs@)),
{
    let mut buf: Vec<u8> = Vec::new();
    push_u128_le(&mut buf, request.quote);
    push_u64_le(&mut buf, request.inputs.len() as u64);
    push_canon_proofs(&mut buf, &request.inputs);
    proof {
        assert(buf@ =~= canon_melt_request(request.quote, request.inputs@));
    }
    fnv1a_hash(&buf)
}

} // verus!

//! The wire-level data model: units, methods, proofs, blinded messages and
//! blind signatures, together with the request and response shapes shared by
//! both transport adapters.

use vstd::prelude::*;

verus! {

/// Maximum number of inputs or outputs a single request may carry.
pub const MAX_INPUTS_OUTPUTS: usize = 64;

/// Maximum length, in bytes, of a proof secret.
pub const MAX_SECRET_LEN: usize = 512;

/// A monetary denomination. Every keyset, quote and proof is tagged with
/// exactly one unit; cross-unit arithmetic is forbidden.
#[derive(Clone, Copy, Debug, PartialEq, Eq, Structural, Hash)]
pub enum Unit {
    MilliStrk,
    Strk,
}

impl Unit {
    /// The lowercase tag used on the wire.
    pub fn code(&self) -> (r: &'static str)
        ensures
            *self == Unit::MilliStrk ==> r@ == "milli-strk"@,
            *self == Unit::Strk ==> r@ == "strk"@,
    {
        match self {
            Unit::MilliStrk => "milli-strk",
            Unit::Strk => "strk",
        }
    }
}

/// A settlement method a liquidity backend can be registered under.
#[derive(Clone, Copy, Debug, PartialEq, Eq, Structural, Hash)]
pub enum Method {
    Mock,
    Starknet,
}

impl Method {
    /// The lowercase tag used on the wire.
    pub fn code(&self) -> (r: &'static str)
        ensures
            *self == Method::Mock ==> r@ == "mock"@,
            *self == Method::Starknet ==> r@ == "starknet"@,
    {
        match self {
            Method::Mock => "mock",
            Method::Starknet => "starknet",
        }
    }
}

/// A bearer token redeemable at the mint.
#[derive(Debug)]
pub struct Proof {
    /// Value of the token; must be a declared key amount of its keyset.
    pub amount: u64,
    /// Fingerprint of the keyset whose key signed this proof.
    pub keyset_id: u64,
    /// The secret whose hash is the proof's nullifier.
    pub secret: Vec<u8>,
    /// The unblinded signature point.
    pub c: Vec<u8>,
}

/// Mathematical image of a [`Proof`].
pub struct ProofV {
    pub amount: u64,
    pub keyset_id: u64,
    pub secret: Seq<u8>,
    pub c: Seq<u8>,
}

impl View for Proof {
    type V = ProofV;

    open spec fn view(&self) -> ProofV {
        ProofV { amount: self.amount, keyset_id: self.keyset_id, secret: self.secret@, c: self.c@ }
    }
}

/// A curve point submitted for blind signing.
#[derive(Debug)]
pub struct BlindedMessage {
    pub amount: u64,
    pub keyset_id: u64,
    /// The blinded secret `B_`.
    pub blinded_secret: Vec<u8>,
}

/// Mathematical image of a [`BlindedMessage`].
pub struct BlindedMessageV {
    pub amount: u64,
    pub keyset_id: u64,
    pub blinded_secret: Seq<u8>,
}

impl View for BlindedMessage {
    type V = BlindedMessageV;

    open spec fn view(&self) -> BlindedMessageV {
        BlindedMessageV {
            amount: self.amount,
            keyset_id: self.keyset_id,
            blinded_secret: self.blinded_secret@,
        }
    }
}

/// The signer's response to a blinded message.
#[derive(Debug)]
pub struct BlindSignature {
    pub amount: u64,
    pub keyset_id: u64,
    /// The blind signature `C_`.
    pub c: Vec<u8>,
}

/// Mathematical image of a [`BlindSignature`].
pub struct BlindSignatureV {
    pub amount: u64,
    pub keyset_id: u64,
    pub c: Seq<u8>,
}

impl View for BlindSignature {
    type V = BlindSignatureV;

    open spec fn view(&self) -> BlindSignatureV {
        BlindSignatureV { amount: self.amount, keyset_id: self.keyset_id, c: self.c@ }
    }
}

/// Element-wise mathematical image of a sequence of proofs.
pub open spec fn proofs_view(s: Seq<Proof>) -> Seq<ProofV> {
    s.map_values(|p: Proof| p@)
}

/// Element-wise mathematical image of a sequence of blinded messages.
pub open spec fn messages_view(s: Seq<BlindedMessage>) -> Seq<BlindedMessageV> {
    s.map_values(|m: BlindedMessage| m@)
}

/// Element-wise mathematical image of a sequence of blind signatures.
pub open spec fn sigs_view(s: Seq<BlindSignature>) -> Seq<BlindSignatureV> {
    s.map_values(|g: BlindSignature| g@)
}

/// The amounts carried by a sequence of proofs.
pub open spec fn proof_amounts(s: Seq<ProofV>) -> Seq<u64> {
    s.map_values(|p: ProofV| p.amount)
}

/// The amounts carried by a sequence of blinded messages.
pub open spec fn message_amounts(s: Seq<BlindedMessageV>) -> Seq<u64> {
    s.map_values(|m: BlindedMessageV| m.amount)
}

/// A request to trade proofs for new proofs of equal value.
#[derive(Debug)]
pub struct SwapRequest {
    pub inputs: Vec<Proof>,
    pub outputs: Vec<BlindedMessage>,
}

/// A request to bind a paid mint quote to blinded outputs.
#[derive(Debug)]
pub struct MintRequest {
    pub quote: u128,
    pub outputs: Vec<BlindedMessage>,
}

/// A request to redeem proofs against a melt quote.
#[derive(Debug)]
pub struct MeltRequest {
    pub quote: u128,
    pub inputs: Vec<Proof>,
}

/// The signatures returned for a swap, aligned with the request's outputs.
#[derive(Debug)]
pub struct SwapResponse {
    pub signatures: Vec<BlindSignature>,
}

/// Mathematical image of a [`SwapResponse`].
pub struct SwapResponseV {
    pub signatures: Seq<BlindSignatureV>,
}

impl View for SwapResponse {
    type V = SwapResponseV;

    open spec fn view(&self) -> SwapResponseV {
        SwapResponseV { signatures: sigs_view(self.signatures@) }
    }
}

/// The signatures returned for a mint, aligned with the request's outputs.
#[derive(Debug)]
pub struct MintResponse {
    pub signatures: Vec<BlindSignature>,
}

/// Mathematical image of a [`MintResponse`].
pub struct MintResponseV {
    pub signatures: Seq<BlindSignatureV>,
}

impl View for MintResponse {
    type V = MintResponseV;

    open spec fn view(&self) -> MintResponseV {
        MintResponseV { signatures: sigs_view(self.signatures@) }
    }
}

/// Copies one blind signature.
pub fn copy_sig(g: &BlindSignature) -> (r: BlindSignature)
    ensures
        r@ == g@,
{
    BlindSignature { amount: g.amount, keyset_id: g.keyset_id, c: crate::bytes::copy_bytes(&g.c) }
}

/// Copies a vector of blind signatures, preserving order and contents.
pub fn copy_sigs(v: &Vec<BlindSignature>) -> (r: Vec<BlindSignature>)
    ensures
        sigs_view(r@) == sigs_view(v@),
{
    let mut r: Vec<BlindSignature> = Vec::new();
    let n = v.len();
    let mut i: usize = 0;
    while i < n
        invariant
            n == v@.len(),
            i <= n,
            r@.len() == i,
            forall|j: int| 0 <= j < i ==> r@[j]@ == #[trigger] v@[j]@,
        decreases n - i,
    {
        let g = copy_sig(&v[i]);
        r.push(g);
        i = i + 1;
    }
    proof {
        assert(sigs_view(r@) =~= sigs_view(v@));
    }
    r
}

} // verus!

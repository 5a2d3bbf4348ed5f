//! The swap engine: proof validation and the blind-signing exchange, under
//! value conservation and double-spend prevention.
//!
//! A swap runs in two verified phases around the remote signer. The caller
//! first obtains the validation verdict and the inputs' nullifiers from
//! [`Node::swap_validate`]; it then has the signer verify the inputs and
//! blind-sign the outputs, and hands the resulting `C_` values to
//! [`Node::swap_commit`], which consumes the nullifiers and produces the
//! response. A validation failure aborts before any signer work: an unknown
//! keyset id, in particular, is rejected without a signer call.

use vstd::prelude::*;
use crate::amount::sum_amounts;
use crate::bytes::copy_bytes;
use crate::error::Error;
use crate::node::{Node, secrets_ok, proofs_keysets_known, messages_keysets_known, proofs_unit_ok,
    messages_unit_ok, proofs_amounts_ok, messages_amounts_ok, ys_of, distinct_bytes, ys_fresh,
    input_amounts, output_amounts};
use crate::keyset::info_of;
use crate::protocol::{Proof, BlindedMessage, BlindSignature, SwapResponse,
    MAX_INPUTS_OUTPUTS};
use crate::response_cache::{Route, CachedResponse, cache_contains, cache_lookup};
use crate::store::{spent_view, spent_contains};

verus! {

/// The unit a swap request trades in: the unit of the first input's keyset.
pub open spec fn request_unit(n: Node, inputs: Seq<Proof>) -> crate::protocol::Unit {
    info_of(n.keysets.infos@, inputs[0].keyset_id).unit
}

/// The verdict of swap validation, in the order the checks run.
pub open spec fn swap_validate_result(n: Node, inputs: Seq<Proof>, outputs: Seq<BlindedMessage>)
    -> Result<Seq<Seq<u8>>, Error> {
    if inputs.len() > MAX_INPUTS_OUTPUTS {
        Err(Error::TooManyInputs)
    } else if outputs.len() > MAX_INPUTS_OUTPUTS {
        Err(Error::TooManyOutputs)
    } else if inputs.len() == 0 {
        Err(Error::EmptyInputs)
    } else if outputs.len() == 0 {
        Err(Error::EmptyOutputs)
    } else if !secrets_ok(inputs) {
        Err(Error::InvalidSecret)
    } else if !(proofs_keysets_known(n, inputs) && messages_keysets_known(n, outputs)) {
        Err(Error::UnknownKeyset)
    } else if !(proofs_unit_ok(n, inputs, request_unit(n, inputs))
        && messages_unit_ok(n, outputs, request_unit(n, inputs))) {
        Err(Error::UnitMismatch)
    } else if !(proofs_amounts_ok(n, inputs) && messages_amounts_ok(n, outputs)) {
        Err(Error::NotAKeyAmount)
    } else if !distinct_bytes(ys_of(inputs)) {
        Err(Error::DuplicateInput)
    } else if !ys_fresh(n, ys_of(inputs)) {
        Err(Error::ProofAlreadySpent)
    } else if sum_amounts(input_amounts(inputs)) != sum_amounts(output_amounts(outputs)) {
        Err(Error::AmountMismatch)
    } else {
        Ok(ys_of(inputs))
    }
}

/// One state change consuming a batch of nullifiers: they were unspent and
/// pairwise distinct before, and the spent set grew by exactly them.
pub open spec fn accepted_spend(pre: Seq<Seq<u8>>, post: Seq<Seq<u8>>, ys: Seq<Seq<u8>>) -> bool {
    &&& forall|i: int| 0 <= i < ys.len() ==> !spent_contains(pre, #[trigger] ys[i])
    &&& distinct_bytes(ys)
    &&& post == pre + ys
}

impl Node {
    /// Validates a swap request and computes the inputs' nullifiers.
    ///
    /// Succeeds exactly on requests within bounds whose proofs and outputs
    /// reference known keysets of one common unit, whose amounts are
    /// declared key amounts, whose nullifiers are pairwise distinct and
    /// unspent, and whose input value equals the output value. The node is
    /// not changed, and nothing was asked of the signer yet.
    pub fn swap_validate(&self, inputs: &Vec<Proof>, outputs: &Vec<BlindedMessage>)
        -> (r: Result<Vec<Vec<u8>>, Error>)
        requires
            self.wf(),
        ensures
            r is Ok <==> swap_validate_result(*self, inputs@, outputs@) is Ok,
            r is Ok ==> spent_view(r->Ok_0@) == ys_of(inputs@),
            r is Err ==> r->Err_0 == swap_validate_result(*self, inputs@, outputs@)->Err_0,
    {
        if inputs.len() > MAX_INPUTS_OUTPUTS {
            return Err(Error::TooManyInputs);
        }
        if outputs.len() > MAX_INPUTS_OUTPUTS {
            return Err(Error::TooManyOutputs);
        }
        if inputs.len() == 0 {
            return Err(Error::EmptyInputs);
        }
        if outputs.len() == 0 {
            return Err(Error::EmptyOutputs);
        }
        if !self.check_secrets(inputs) {
            return Err(Error::InvalidSecret);
        }
        if !self.check_proof_keysets(inputs) || !self.check_message_keysets(outputs) {
            return Err(Error::UnknownKeyset);
        }
        let first_info = self.keysets.info(inputs[0].keyset_id).unwrap();
        let unit = first_info.unit;
        if !self.check_proof_units(inputs, unit) || !self.check_message_units(outputs, unit) {
            return Err(Error::UnitMismatch);
        }
        if !self.check_proof_amounts(inputs) || !self.check_message_amounts(outputs) {
            return Err(Error::NotAKeyAmount);
        }
        let ys = self.compute_ys(inputs);
        if !self.check_ys_distinct(&ys) {
            return Err(Error::DuplicateInput);
        }
        if !self.check_ys_fresh(&ys) {
            return Err(Error::ProofAlreadySpent);
        }
        let sum_in = self.sum_input_amounts(inputs);
        let sum_out = self.sum_output_amounts(outputs);
        if sum_in != sum_out {
            return Err(Error::AmountMismatch);
        }
        Ok(ys)
    }

    /// Commits a validated swap: consumes the nullifiers and assembles the
    /// response from the signer's blind signatures, depositing it in the
    /// response cache under the request fingerprint.
    ///
    /// `blind_sigs` are the `C_` values the signer returned for `outputs`,
    /// in order.
    pub fn swap_commit(&mut self, outputs: &Vec<BlindedMessage>, ys: &Vec<Vec<u8>>,
        blind_sigs: &Vec<Vec<u8>>, fingerprint: u64) -> (r: SwapResponse)
        requires
            old(self).wf(),
            forall|i: int| 0 <= i < ys@.len()
                ==> !spent_contains(spent_view(old(self).store.spent@), (#[trigger] ys@[i])@),
            distinct_bytes(spent_view(ys@)),
            blind_sigs@.len() == outputs@.len(),
        ensures
            final(self).wf(),
            // the spent set grew by exactly the request's nullifiers
            accepted_spend(spent_view(old(self).store.spent@),
                spent_view(final(self).store.spent@), spent_view(ys@)),
            final(self).store.mint_quotes@ == old(self).store.mint_quotes@,
            final(self).store.melt_quotes@ == old(self).store.melt_quotes@,
            final(self).store.bindings@ == old(self).store.bindings@,
            final(self).keysets == old(self).keysets,
            final(self).liquidity == old(self).liquidity,
            final(self).quote_ttl == old(self).quote_ttl,
            // the response is aligned with the outputs, carrying the
            // signer's blind signatures
            r@.signatures.len() == outputs@.len(),
            forall|i: int| 0 <= i < outputs@.len()
                ==> (#[trigger] r@.signatures[i]).amount == outputs@[i].amount
                    && r@.signatures[i].keyset_id == outputs@[i].keyset_id
                    && r@.signatures[i].c == blind_sigs@[i]@,
            // the response was deposited for replay under the fingerprint
            final(self).cache.capacity == old(self).cache.capacity,
            cache_contains(final(self).cache.entries@, Route::Swap, fingerprint),
            cache_lookup(final(self).cache.entries@, Route::Swap, fingerprint)
                == if cache_contains(old(self).cache.entries@, Route::Swap, fingerprint) {
                    cache_lookup(old(self).cache.entries@, Route::Swap, fingerprint)
                } else {
                    crate::response_cache::CachedResponseV::Swap(r@)
                },
            // every other cached response survives, but for the oldest
            // entry when the bound forces an eviction
            crate::response_cache::insert_preserves_others(old(self).cache.entries@,
                final(self).cache.entries@, old(self).cache.capacity, Route::Swap,
                fingerprint),
    {
        proof {
            assert forall|i: int, j: int| 0 <= i < j < ys@.len()
                implies ys@[i]@ != ys@[j]@ by {
                assert(spent_view(ys@)[i] != spent_view(ys@)[j]);
            }
        }
        self.store.insert_spent(ys);
        let signatures = build_signatures(outputs, blind_sigs);
        let cached_sigs = crate::protocol::copy_sigs(&signatures);
        let response = SwapResponse { signatures };
        self.cache.insert(Route::Swap, fingerprint,
            CachedResponse::Swap(SwapResponse { signatures: cached_sigs }));
        response
    }
}

/// Zips outputs with the signer's `C_` values into blind signatures.
pub(crate) fn build_signatures(outputs: &Vec<BlindedMessage>, blind_sigs: &Vec<Vec<u8>>)
    -> (r: Vec<BlindSignature>)
    requires
        blind_sigs@.len() == outputs@.len(),
    ensures
        r@.len() == outputs@.len(),
        forall|i: int| 0 <= i < outputs@.len()
            ==> (#[trigger] r@[i]@).amount == outputs@[i].amount
                && r@[i]@.keyset_id == outputs@[i].keyset_id
                && r@[i]@.c == blind_sigs@[i]@,
{
    let mut r: Vec<BlindSignature> = Vec::new();
    let n = outputs.len();
    let mut i: usize = 0;
    while i < n
        invariant
            n == outputs@.len() == blind_sigs@.len(),
            i <= n,
            r@.len() == i,
            forall|j: int| 0 <= j < i
                ==> (#[trigger] r@[j]@).amount == outputs@[j].amount
                    && r@[j]@.keyset_id == outputs@[j].keyset_id
                    && r@[j]@.c == blind_sigs@[j]@,
        decreases n - i,
    {
        let sig = BlindSignature {
            amount: outputs[i].amount,
            keyset_id: outputs[i].keyset_id,
            c: copy_bytes(&blind_sigs[i]),
        };
        r.push(sig);
        i = i + 1;
    }
    r
}

/// Conservation: a swap that passes validation balances exactly, input
/// value against output value.
pub proof fn lemma_swap_conservation(n: Node, inputs: Seq<Proof>, outputs: Seq<BlindedMessage>)
    requires
        swap_validate_result(n, inputs, outputs) is Ok,
    ensures
        sum_amounts(input_amounts(inputs)) == sum_amounts(output_amounts(outputs)),
{
}

/// Amount decomposition: a swap that passes validation carries only
/// declared key amounts, on inputs and outputs alike.
pub proof fn lemma_swap_amounts_declared(n: Node, inputs: Seq<Proof>, outputs: Seq<BlindedMessage>)
    requires
        swap_validate_result(n, inputs, outputs) is Ok,
    ensures
        proofs_amounts_ok(n, inputs),
        messages_amounts_ok(n, outputs),
{
}

/// Bounds: validation succeeds only within the size bounds, and the bounds
/// alone never reject a request of 1 to 64 inputs and outputs.
pub proof fn lemma_swap_bounds(n: Node, inputs: Seq<Proof>, outputs: Seq<BlindedMessage>)
    ensures
        swap_validate_result(n, inputs, outputs) is Ok
            ==> 1 <= inputs.len() <= 64 && 1 <= outputs.len() <= 64,
        inputs.len() == 0 || inputs.len() > 64 || outputs.len() == 0 || outputs.len() > 64
            ==> swap_validate_result(n, inputs, outputs) is Err,
{
}

/// No double-spend: the nullifier sets of any two accepted spends, one
/// performed after the other, are disjoint.
pub proof fn lemma_no_double_spend(s0: Seq<Seq<u8>>, s1: Seq<Seq<u8>>, s2: Seq<Seq<u8>>,
    ys1: Seq<Seq<u8>>, ys2: Seq<Seq<u8>>)
    requires
        accepted_spend(s0, s1, ys1),
        accepted_spend(s1, s2, ys2),
    ensures
        forall|i: int, j: int| 0 <= i < ys1.len() && 0 <= j < ys2.len()
            ==> ys1[i] != ys2[j],
{
    assert forall|i: int, j: int| 0 <= i < ys1.len() && 0 <= j < ys2.len()
        implies ys1[i] != ys2[j] by {
        assert(s1[s0.len() + i] == ys1[i]);
        assert(spent_contains(s1, ys1[i]));
        assert(!spent_contains(s1, ys2[j]));
    }
}

} // verus!

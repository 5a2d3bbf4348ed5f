//! The melt engine: validate proofs, commit them to a pending melt, let the
//! caller trigger settlement, and finalize.
//!
//! Proofs are marked spent the moment they are bound to the melt quote,
//! before outbound settlement is attempted: recoverability is traded for
//! replay safety. An indeterminate settlement leaves the quote `Pending`;
//! a later poll resolves it.

use vstd::prelude::*;
use crate::amount::sum_amounts;
use crate::error::Error;
use crate::liquidity::{WithdrawalQuote, SettlementOutcome, supports};
use crate::node::{Node, secrets_ok, proofs_keysets_known, proofs_unit_ok, proofs_amounts_ok,
    ys_of, distinct_bytes, ys_fresh, input_amounts};
use crate::protocol::{Proof, MAX_INPUTS_OUTPUTS, Unit, Method};
use crate::quote::{MeltQuote, MeltQuoteState, melt_transition_ok, copy_melt_quote, copy_strings};
use crate::response_cache::{MeltResponse, Route, cache_contains, cache_lookup};
use crate::store::{contains_melt_quote, melt_quote_idx, melt_quote_with_state, bindings_view,
    bound_pairs, spent_view, spent_contains};
use crate::swap::accepted_spend;

verus! {

/// The state a melt quote moves to on a settlement report: a final report
/// on a `Pending` quote advances it to `Paid`; an indeterminate report
/// leaves it `Pending`.
pub open spec fn settled_melt_state(state: MeltQuoteState, settled: bool) -> MeltQuoteState {
    if state == MeltQuoteState::Pending && settled {
        MeltQuoteState::Paid
    } else {
        state
    }
}

/// The verdict of melt-execution validation, in the order the checks run.
pub open spec fn melt_validate_result(n: Node, method: Method, quote_id: u128,
    inputs: Seq<Proof>, now: u64) -> Result<Seq<Seq<u8>>, Error> {
    let quotes = n.store.melt_quotes@;
    if inputs.len() > MAX_INPUTS_OUTPUTS {
        Err(Error::TooManyInputs)
    } else if inputs.len() == 0 {
        Err(Error::EmptyInputs)
    } else if !secrets_ok(inputs) {
        Err(Error::InvalidSecret)
    } else if !(contains_melt_quote(quotes, quote_id)
        && quotes[melt_quote_idx(quotes, quote_id)].method == method) {
        Err(Error::QuoteNotFound)
    } else if quotes[melt_quote_idx(quotes, quote_id)].state != MeltQuoteState::Unpaid {
        Err(Error::InvalidState)
    } else if now >= quotes[melt_quote_idx(quotes, quote_id)].expiry {
        Err(Error::Expired)
    } else if !proofs_keysets_known(n, inputs) {
        Err(Error::UnknownKeyset)
    } else if !proofs_unit_ok(n, inputs, quotes[melt_quote_idx(quotes, quote_id)].unit) {
        Err(Error::UnitMismatch)
    } else if !proofs_amounts_ok(n, inputs) {
        Err(Error::NotAKeyAmount)
    } else if !distinct_bytes(ys_of(inputs)) {
        Err(Error::DuplicateInput)
    } else if !ys_fresh(n, ys_of(inputs)) {
        Err(Error::ProofAlreadySpent)
    } else if sum_amounts(input_amounts(inputs))
        != quotes[melt_quote_idx(quotes, quote_id)].amount as int
            + quotes[melt_quote_idx(quotes, quote_id)].fee as int {
        Err(Error::AmountMismatch)
    } else {
        Ok(ys_of(inputs))
    }
}

impl Node {
    /// Creates a melt quote in state `Unpaid` around a backend-priced
    /// outbound settlement, valid for the configured time to live.
    ///
    /// `request` is the outbound settlement target; `priced` is what the
    /// liquidity source quoted for it. An unsupported `(method, unit)` pair
    /// is refused; a colliding quote id is reported as internal corruption.
    pub fn create_melt_quote(&mut self, method: Method, unit: Unit, request: String,
        priced: WithdrawalQuote, quote_id: u128, now: u64) -> (r: Result<MeltQuote, Error>)
        requires
            old(self).wf(),
            now + old(self).quote_ttl.melt_ttl <= u64::MAX,
        ensures
            final(self).wf(),
            final(self).keysets == old(self).keysets,
            final(self).cache == old(self).cache,
            final(self).liquidity == old(self).liquidity,
            final(self).quote_ttl == old(self).quote_ttl,
            final(self).store.mint_quotes@ == old(self).store.mint_quotes@,
            final(self).store.spent@ == old(self).store.spent@,
            final(self).store.bindings@ == old(self).store.bindings@,
            r is Ok <==> supports(old(self).liquidity.backends@, method, unit)
                && !contains_melt_quote(old(self).store.melt_quotes@, quote_id),
            r is Ok ==> r->Ok_0@ == (crate::quote::MeltQuoteV {
                id: quote_id,
                method,
                unit,
                amount: priced.amount,
                fee: priced.fee,
                request: request@,
                state: MeltQuoteState::Unpaid,
                expiry: (now + old(self).quote_ttl.melt_ttl) as u64,
                transfer_ids: Seq::empty(),
            }),
            r is Ok ==> final(self).store.melt_quotes@.len()
                    == old(self).store.melt_quotes@.len() + 1
                && final(self).store.melt_quotes@.last()@ == r->Ok_0@
                && forall|j: int| 0 <= j < old(self).store.melt_quotes@.len()
                    ==> final(self).store.melt_quotes@[j] == old(self).store.melt_quotes@[j],
            r is Err ==> final(self).store.melt_quotes@ == old(self).store.melt_quotes@,
            r is Err ==> r->Err_0 == (if !supports(old(self).liquidity.backends@, method, unit) {
                Error::MethodUnitUnsupported
            } else {
                Error::Internal
            }),
    {
        if let Err(e) = self.liquidity.resolve(method, unit) {
            return Err(e);
        }
        let expiry = now + self.quote_ttl.melt_ttl;
        let quote = MeltQuote {
            id: quote_id,
            method,
            unit,
            amount: priced.amount,
            fee: priced.fee,
            request,
            state: MeltQuoteState::Unpaid,
            expiry,
            transfer_ids: Vec::new(),
        };
        let stored = copy_melt_quote(&quote);
        proof {
            assert(quote@.transfer_ids =~= Seq::<Seq<char>>::empty());
        }
        match self.store.insert_melt_quote(stored) {
            Ok(()) => Ok(quote),
            Err(e) => Err(e),
        }
    }

    /// Validates redeeming proofs against a melt quote and computes the
    /// inputs' nullifiers.
    ///
    /// Succeeds exactly when the quote exists under the method, is
    /// `Unpaid` and unexpired, and the inputs are within bounds, carry
    /// valid secrets, reference known keysets of the quote's unit, carry
    /// declared key amounts, have pairwise-distinct unspent nullifiers,
    /// and sum to the quoted amount plus fee. The node is not changed.
    pub fn melt_validate(&self, method: Method, quote_id: u128, inputs: &Vec<Proof>, now: u64)
        -> (r: Result<Vec<Vec<u8>>, Error>)
        requires
            self.wf(),
        ensures
            r is Ok <==> melt_validate_result(*self, method, quote_id, inputs@, now) is Ok,
            r is Ok ==> spent_view(r->Ok_0@) == ys_of(inputs@),
            r is Err ==> r->Err_0
                == melt_validate_result(*self, method, quote_id, inputs@, now)->Err_0,
    {
        if inputs.len() > MAX_INPUTS_OUTPUTS {
            return Err(Error::TooManyInputs);
        }
        if inputs.len() == 0 {
            return Err(Error::EmptyInputs);
        }
        if !self.check_secrets(inputs) {
            return Err(Error::InvalidSecret);
        }
        let idx = match self.store.find_melt_quote(quote_id) {
            Some(i) => i,
            None => {
                return Err(Error::QuoteNotFound);
            },
        };
        if !crate::liquidity::method_eq(self.store.melt_quotes[idx].method, method) {
            return Err(Error::QuoteNotFound);
        }
        if !matches_melt_state(self.store.melt_quotes[idx].state, MeltQuoteState::Unpaid) {
            return Err(Error::InvalidState);
        }
        if now >= self.store.melt_quotes[idx].expiry {
            return Err(Error::Expired);
        }
        if !self.check_proof_keysets(inputs) {
            return Err(Error::UnknownKeyset);
        }
        if !self.check_proof_units(inputs, self.store.melt_quotes[idx].unit) {
            return Err(Error::UnitMismatch);
        }
        if !self.check_proof_amounts(inputs) {
            return Err(Error::NotAKeyAmount);
        }
        let ys = self.compute_ys(inputs);
        if !self.check_ys_distinct(&ys) {
            return Err(Error::DuplicateInput);
        }
        if !self.check_ys_fresh(&ys) {
            return Err(Error::ProofAlreadySpent);
        }
        let sum_in = self.sum_input_amounts(inputs);
        let owed = self.store.melt_quotes[idx].amount as u128
            + self.store.melt_quotes[idx].fee as u128;
        if sum_in != owed {
            return Err(Error::AmountMismatch);
        }
        Ok(ys)
    }

    /// Commits a validated melt: consumes the nullifiers, binds them to
    /// the quote, and moves the quote from `Unpaid` to `Pending`. The
    /// caller then triggers outbound settlement and reports its outcome to
    /// [`Node::melt_finalize`].
    pub fn melt_commit(&mut self, method: Method, quote_id: u128, inputs: &Vec<Proof>,
        ys: &Vec<Vec<u8>>, now: u64)
        requires
            old(self).wf(),
            melt_validate_result(*old(self), method, quote_id, inputs@, now) is Ok,
            spent_view(ys@) == ys_of(inputs@),
        ensures
            final(self).wf(),
            // the spent set grew by exactly the request's nullifiers
            accepted_spend(spent_view(old(self).store.spent@),
                spent_view(final(self).store.spent@), spent_view(ys@)),
            // the nullifiers are bound to the quote
            bindings_view(final(self).store.bindings@)
                == bindings_view(old(self).store.bindings@) + bound_pairs(ys@, quote_id),
            // exactly the quote's state moved, Unpaid -> Pending
            ({
                let qi = melt_quote_idx(old(self).store.melt_quotes@, quote_id);
                let q = old(self).store.melt_quotes@[qi];
                &&& q.state == MeltQuoteState::Unpaid
                &&& melt_transition_ok(q.state, MeltQuoteState::Pending)
                &&& final(self).store.melt_quotes@.len() == old(self).store.melt_quotes@.len()
                &&& final(self).store.melt_quotes@[qi]@
                    == melt_quote_with_state(q@, MeltQuoteState::Pending, Seq::empty())
                &&& forall|j: int| 0 <= j < old(self).store.melt_quotes@.len() && j != qi
                    ==> final(self).store.melt_quotes@[j] == old(self).store.melt_quotes@[j]
            }),
            final(self).store.mint_quotes@ == old(self).store.mint_quotes@,
            final(self).keysets == old(self).keysets,
            final(self).cache == old(self).cache,
            final(self).liquidity == old(self).liquidity,
            final(self).quote_ttl == old(self).quote_ttl,
    {
        proof {
            assert forall|i: int, j: int| 0 <= i < j < ys@.len()
                implies ys@[i]@ != ys@[j]@ by {
                assert(spent_view(ys@)[i] != spent_view(ys@)[j]);
            }
            assert forall|i: int| 0 <= i < ys@.len()
                implies !spent_contains(spent_view(self.store.spent@),
                    (#[trigger] ys@[i])@) by {
                assert(spent_view(ys@)[i] == ys@[i]@);
            }
        }
        let idx = self.store.find_melt_quote(quote_id).unwrap();
        self.store.insert_spent(ys);
        self.store.bind_melt(ys, quote_id);
        let empty_ids: Vec<String> = Vec::new();
        proof {
            assert(empty_ids@.map_values(|t: String| t@) =~= Seq::<Seq<char>>::empty());
        }
        self.store.set_melt_quote_state(idx, MeltQuoteState::Pending, empty_ids);
    }

    /// Folds the outcome of a settlement attempt into a melt quote and
    /// assembles the melt response.
    ///
    /// A final outcome on a `Pending` quote advances it to `Paid` and
    /// records the transfer ids; an indeterminate outcome leaves the quote
    /// `Pending`, to be resolved by a later poll. The response is deposited
    /// in the cache under the melt request's fingerprint, so a retried melt
    /// replays it instead of spending anything twice.
    ///
    /// There is no terminal failed state: even a settlement attempt the
    /// backend reports as definitively failed leaves the quote `Pending`
    /// with its proofs spent, and later polls resolve it — the three-state
    /// chain is never rolled back, which is what closes the replay window.
    pub fn melt_finalize(&mut self, quote_id: u128, outcome: &SettlementOutcome,
        fingerprint: u64) -> (r: Result<MeltResponse, Error>)
        requires
            old(self).wf(),
        ensures
            final(self).wf(),
            final(self).keysets == old(self).keysets,
            final(self).liquidity == old(self).liquidity,
            final(self).quote_ttl == old(self).quote_ttl,
            final(self).store.mint_quotes@ == old(self).store.mint_quotes@,
            final(self).store.spent@ == old(self).store.spent@,
            final(self).store.bindings@ == old(self).store.bindings@,
            final(self).store.melt_quotes@.len() == old(self).store.melt_quotes@.len(),
            r is Ok <==> contains_melt_quote(old(self).store.melt_quotes@, quote_id),
            r is Err ==> final(self).store.melt_quotes@ == old(self).store.melt_quotes@
                && final(self).cache == old(self).cache
                && r->Err_0 == Error::QuoteNotFound,
            r is Ok ==> ({
                let qi = melt_quote_idx(old(self).store.melt_quotes@, quote_id);
                let q = old(self).store.melt_quotes@[qi];
                let next = settled_melt_state(q.state, outcome.settled);
                let ids = if q.state == MeltQuoteState::Pending && outcome.settled {
                    outcome.transfer_ids@.map_values(|t: String| t@)
                } else {
                    q@.transfer_ids
                };
                // the step taken is one the melt chain allows
                &&& melt_transition_ok(q.state, next)
                &&& final(self).store.melt_quotes@[qi]@ == melt_quote_with_state(q@, next, ids)
                &&& forall|j: int| 0 <= j < old(self).store.melt_quotes@.len() && j != qi
                    ==> final(self).store.melt_quotes@[j] == old(self).store.melt_quotes@[j]
                &&& r->Ok_0@ == (crate::response_cache::MeltResponseV {
                    quote: quote_id,
                    amount: q.amount,
                    fee: q.fee,
                    state: next,
                    expiry: q.expiry,
                    transfer_ids: ids,
                })
                // the response was deposited for replay under the fingerprint
                &&& final(self).cache.capacity == old(self).cache.capacity
                &&& cache_contains(final(self).cache.entries@, Route::Melt, fingerprint)
                &&& cache_lookup(final(self).cache.entries@, Route::Melt, fingerprint)
                    == if cache_contains(old(self).cache.entries@, Route::Melt, fingerprint) {
                        cache_lookup(old(self).cache.entries@, Route::Melt, fingerprint)
                    } else {
                        crate::response_cache::CachedResponseV::Melt(r->Ok_0@)
                    }
                // every other cached response survives, but for the oldest
                // entry when the bound forces an eviction
                &&& crate::response_cache::insert_preserves_others(old(self).cache.entries@,
                    final(self).cache.entries@, old(self).cache.capacity, Route::Melt,
                    fingerprint)
            }),
    {
        let idx = match self.store.find_melt_quote(quote_id) {
            Some(i) => i,
            None => {
                return Err(Error::QuoteNotFound);
            },
        };
        let advance = matches_melt_state(self.store.melt_quotes[idx].state,
            MeltQuoteState::Pending) && outcome.settled;
        if advance {
            let ids = copy_strings(&outcome.transfer_ids);
            self.store.set_melt_quote_state(idx, MeltQuoteState::Paid, ids);
        }
        let q = &self.store.melt_quotes[idx];
        let response = MeltResponse {
            quote: q.id,
            amount: q.amount,
            fee: q.fee,
            state: q.state,
            expiry: q.expiry,
            transfer_ids: copy_strings(&q.transfer_ids),
        };
        let cached = crate::response_cache::copy_melt_response(&response);
        self.cache.insert(Route::Melt, fingerprint,
            crate::response_cache::CachedResponse::Melt(cached));
        Ok(response)
    }

    /// Reports the state of a melt quote, folding in a settlement poll if
    /// one was taken: a final report on a `Pending` quote advances it to
    /// `Paid` with the reported transfer ids.
    pub fn melt_quote_state(&mut self, method: Method, quote_id: u128,
        poll: Option<&SettlementOutcome>) -> (r: Result<MeltQuote, Error>)
        requires
            old(self).wf(),
        ensures
            final(self).wf(),
            final(self).keysets == old(self).keysets,
            final(self).cache == old(self).cache,
            final(self).liquidity == old(self).liquidity,
            final(self).quote_ttl == old(self).quote_ttl,
            final(self).store.mint_quotes@ == old(self).store.mint_quotes@,
            final(self).store.spent@ == old(self).store.spent@,
            final(self).store.bindings@ == old(self).store.bindings@,
            final(self).store.melt_quotes@.len() == old(self).store.melt_quotes@.len(),
            r is Ok <==> contains_melt_quote(old(self).store.melt_quotes@, quote_id)
                && old(self).store.melt_quotes@[
                    melt_quote_idx(old(self).store.melt_quotes@, quote_id)].method == method,
            r is Err ==> final(self).store.melt_quotes@ == old(self).store.melt_quotes@
                && r->Err_0 == Error::QuoteNotFound,
            r is Ok ==> ({
                let qi = melt_quote_idx(old(self).store.melt_quotes@, quote_id);
                let q = old(self).store.melt_quotes@[qi];
                let settled = poll is Some && poll->Some_0.settled;
                let next = settled_melt_state(q.state, settled);
                let ids = if q.state == MeltQuoteState::Pending && settled {
                    poll->Some_0.transfer_ids@.map_values(|t: String| t@)
                } else {
                    q@.transfer_ids
                };
                &&& melt_transition_ok(q.state, next)
                &&& r->Ok_0@ == melt_quote_with_state(q@, next, ids)
                &&& final(self).store.melt_quotes@[qi]@ == melt_quote_with_state(q@, next, ids)
                &&& forall|j: int| 0 <= j < old(self).store.melt_quotes@.len() && j != qi
                    ==> final(self).store.melt_quotes@[j] == old(self).store.melt_quotes@[j]
            }),
    {
        let idx = match self.store.find_melt_quote(quote_id) {
            Some(i) => i,
            None => {
                return Err(Error::QuoteNotFound);
            },
        };
        if !crate::liquidity::method_eq(self.store.melt_quotes[idx].method, method) {
            return Err(Error::QuoteNotFound);
        }
        let is_pending = matches_melt_state(self.store.melt_quotes[idx].state,
            MeltQuoteState::Pending);
        let advance = match poll {
            Some(outcome) => is_pending && outcome.settled,
            None => false,
        };
        if advance {
            let outcome = poll.unwrap();
            let ids = copy_strings(&outcome.transfer_ids);
            self.store.set_melt_quote_state(idx, MeltQuoteState::Paid, ids);
        }
        Ok(copy_melt_quote(&self.store.melt_quotes[idx]))
    }
}

/// Structural comparison of melt states.
pub fn matches_melt_state(a: MeltQuoteState, b: MeltQuoteState) -> (r: bool)
    ensures
        r == (a == b),
{
    match (a, b) {
        (MeltQuoteState::Unpaid, MeltQuoteState::Unpaid) => true,
        (MeltQuoteState::Pending, MeltQuoteState::Pending) => true,
        (MeltQuoteState::Paid, MeltQuoteState::Paid) => true,
        _ => false,
    }
}

} // verus!

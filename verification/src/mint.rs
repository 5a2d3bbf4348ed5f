//! The mint engine: create a quote, watch it get paid, and bind the paid
//! quote to a set of blinded outputs, emitting signatures exactly once.

use vstd::prelude::*;
use crate::amount::sum_amounts;
use crate::error::Error;
use crate::liquidity::{DepositObservation, supports};
use crate::node::{Node, messages_keysets_known, messages_unit_ok, messages_amounts_ok,
    output_amounts};
use crate::protocol::{BlindedMessage, MintResponse, MAX_INPUTS_OUTPUTS, Unit, Method};
use crate::quote::{MintQuote, MintQuoteState, mint_transition_ok, copy_mint_quote};
use crate::response_cache::{Route, CachedResponse, cache_contains, cache_lookup};
use crate::store::{contains_mint_quote, mint_quote_idx, mint_quote_with_state};

verus! {

/// The state a mint quote moves to when the backend's observation arrives:
/// positive settlement evidence advances `Unpaid` to `Paid`; everything
/// else leaves the state alone.
pub open spec fn observed_mint_state(state: MintQuoteState, observation: Option<DepositObservation>)
    -> MintQuoteState {
    if state == MintQuoteState::Unpaid && observation is Some && observation->Some_0.paid {
        MintQuoteState::Paid
    } else {
        state
    }
}

/// The verdict of mint-execution validation, in the order the checks run.
pub open spec fn mint_validate_result(n: Node, method: Method, quote_id: u128,
    outputs: Seq<BlindedMessage>, now: u64) -> Result<(), Error> {
    let quotes = n.store.mint_quotes@;
    if outputs.len() > MAX_INPUTS_OUTPUTS {
        Err(Error::TooManyOutputs)
    } else if outputs.len() == 0 {
        Err(Error::EmptyOutputs)
    } else if !(contains_mint_quote(quotes, quote_id)
        && quotes[mint_quote_idx(quotes, quote_id)].method == method) {
        Err(Error::QuoteNotFound)
    } else if quotes[mint_quote_idx(quotes, quote_id)].state != MintQuoteState::Paid {
        Err(Error::InvalidState)
    } else if now >= quotes[mint_quote_idx(quotes, quote_id)].expiry {
        Err(Error::Expired)
    } else if !messages_keysets_known(n, outputs) {
        Err(Error::UnknownKeyset)
    } else if !messages_unit_ok(n, outputs, quotes[mint_quote_idx(quotes, quote_id)].unit) {
        Err(Error::UnitMismatch)
    } else if !messages_amounts_ok(n, outputs) {
        Err(Error::NotAKeyAmount)
    } else if sum_amounts(output_amounts(outputs))
        != quotes[mint_quote_idx(quotes, quote_id)].amount as int {
        Err(Error::AmountMismatch)
    } else {
        Ok(())
    }
}

impl Node {
    /// Creates a mint quote in state `Unpaid` around a backend-issued
    /// payment request, valid for the configured time to live.
    ///
    /// `request` is what the liquidity source produced for this method and
    /// unit; `quote_id` is the freshly drawn id; `now` is the current unix
    /// time. An unsupported `(method, unit)` pair is refused; a colliding
    /// quote id is reported as internal corruption.
    pub fn create_mint_quote(&mut self, method: Method, unit: Unit, amount: u64, request: String,
        quote_id: u128, now: u64) -> (r: Result<MintQuote, Error>)
        requires
            old(self).wf(),
            now + old(self).quote_ttl.mint_ttl <= u64::MAX,
        ensures
            final(self).wf(),
            final(self).keysets == old(self).keysets,
            final(self).cache == old(self).cache,
            final(self).liquidity == old(self).liquidity,
            final(self).quote_ttl == old(self).quote_ttl,
            final(self).store.melt_quotes@ == old(self).store.melt_quotes@,
            final(self).store.spent@ == old(self).store.spent@,
            final(self).store.bindings@ == old(self).store.bindings@,
            r is Ok <==> supports(old(self).liquidity.backends@, method, unit)
                && !contains_mint_quote(old(self).store.mint_quotes@, quote_id),
            r is Ok ==> r->Ok_0@ == (crate::quote::MintQuoteV {
                id: quote_id,
                method,
                unit,
                amount,
                request: request@,
                state: MintQuoteState::Unpaid,
                expiry: (now + old(self).quote_ttl.mint_ttl) as u64,
            }),
            r is Ok ==> final(self).store.mint_quotes@.len()
                    == old(self).store.mint_quotes@.len() + 1
                && final(self).store.mint_quotes@.last()@ == r->Ok_0@
                && forall|j: int| 0 <= j < old(self).store.mint_quotes@.len()
                    ==> final(self).store.mint_quotes@[j] == old(self).store.mint_quotes@[j],
            r is Err ==> final(self).store.mint_quotes@ == old(self).store.mint_quotes@,
            r is Err ==> r->Err_0 == (if !supports(old(self).liquidity.backends@, method, unit) {
                Error::MethodUnitUnsupported
            } else {
                Error::Internal
            }),
    {
        if let Err(e) = self.liquidity.resolve(method, unit) {
            return Err(e);
        }
        let expiry = now + self.quote_ttl.mint_ttl;
        let quote = MintQuote {
            id: quote_id,
            method,
            unit,
            amount,
            request,
            state: MintQuoteState::Unpaid,
            expiry,
        };
        let stored = copy_mint_quote(&quote);
        match self.store.insert_mint_quote(stored) {
            Ok(()) => Ok(quote),
            Err(e) => Err(e),
        }
    }

    /// Reports the state of a mint quote, folding in the backend's deposit
    /// observation if one was taken: positive evidence on an `Unpaid` quote
    /// advances it to `Paid`. `Paid` and `Issued` are returned as they are.
    pub fn mint_quote_state(&mut self, method: Method, quote_id: u128,
        observation: Option<DepositObservation>) -> (r: Result<MintQuote, Error>)
        requires
            old(self).wf(),
        ensures
            final(self).wf(),
            final(self).keysets == old(self).keysets,
            final(self).cache == old(self).cache,
            final(self).liquidity == old(self).liquidity,
            final(self).quote_ttl == old(self).quote_ttl,
            final(self).store.melt_quotes@ == old(self).store.melt_quotes@,
            final(self).store.spent@ == old(self).store.spent@,
            final(self).store.bindings@ == old(self).store.bindings@,
            final(self).store.mint_quotes@.len() == old(self).store.mint_quotes@.len(),
            r is Ok <==> contains_mint_quote(old(self).store.mint_quotes@, quote_id)
                && old(self).store.mint_quotes@[
                    mint_quote_idx(old(self).store.mint_quotes@, quote_id)].method == method,
            r is Err ==> final(self).store.mint_quotes@ == old(self).store.mint_quotes@
                && r->Err_0 == Error::QuoteNotFound,
            r is Ok ==> ({
                let qi = mint_quote_idx(old(self).store.mint_quotes@, quote_id);
                let q = old(self).store.mint_quotes@[qi];
                let next = observed_mint_state(q.state, observation);
                // the step taken is one the mint chain allows
                &&& mint_transition_ok(q.state, next)
                &&& r->Ok_0@ == mint_quote_with_state(q@, next)
                &&& final(self).store.mint_quotes@[qi]@ == mint_quote_with_state(q@, next)
                &&& forall|j: int| 0 <= j < old(self).store.mint_quotes@.len() && j != qi
                    ==> final(self).store.mint_quotes@[j] == old(self).store.mint_quotes@[j]
            }),
    {
        let idx = match self.store.find_mint_quote(quote_id) {
            Some(i) => i,
            None => {
                return Err(Error::QuoteNotFound);
            },
        };
        if !crate::liquidity::method_eq(self.store.mint_quotes[idx].method, method) {
            return Err(Error::QuoteNotFound);
        }
        let is_unpaid = matches_mint_state(self.store.mint_quotes[idx].state,
            MintQuoteState::Unpaid);
        let advance = match observation {
            Some(obs) => is_unpaid && obs.paid,
            None => false,
        };
        if advance {
            self.store.set_mint_quote_state(idx, MintQuoteState::Paid);
        }
        Ok(copy_mint_quote(&self.store.mint_quotes[idx]))
    }

    /// Validates binding a mint quote to a set of blinded outputs.
    ///
    /// Succeeds exactly when the quote exists under the method, is `Paid`
    /// and unexpired, and the outputs are within bounds, reference known
    /// keysets of the quote's unit, carry declared key amounts, and sum to
    /// the quoted amount. The node is not changed.
    pub fn mint_validate(&self, method: Method, quote_id: u128, outputs: &Vec<BlindedMessage>,
        now: u64) -> (r: Result<(), Error>)
        requires
            self.wf(),
        ensures
            r is Ok <==> mint_validate_result(*self, method, quote_id, outputs@, now) is Ok,
            r is Err ==> r->Err_0
                == mint_validate_result(*self, method, quote_id, outputs@, now)->Err_0,
    {
        if outputs.len() > MAX_INPUTS_OUTPUTS {
            return Err(Error::TooManyOutputs);
        }
        if outputs.len() == 0 {
            return Err(Error::EmptyOutputs);
        }
        let idx = match self.store.find_mint_quote(quote_id) {
            Some(i) => i,
            None => {
                return Err(Error::QuoteNotFound);
            },
        };
        if !crate::liquidity::method_eq(self.store.mint_quotes[idx].method, method) {
            return Err(Error::QuoteNotFound);
        }
        if !matches_mint_state(self.store.mint_quotes[idx].state, MintQuoteState::Paid) {
            return Err(Error::InvalidState);
        }
        if now >= self.store.mint_quotes[idx].expiry {
            return Err(Error::Expired);
        }
        if !self.check_message_keysets(outputs) {
            return Err(Error::UnknownKeyset);
        }
        if !self.check_message_units(outputs, self.store.mint_quotes[idx].unit) {
            return Err(Error::UnitMismatch);
        }
        if !self.check_message_amounts(outputs) {
            return Err(Error::NotAKeyAmount);
        }
        let sum_out = self.sum_output_amounts(outputs);
        if sum_out != self.store.mint_quotes[idx].amount as u128 {
            return Err(Error::AmountMismatch);
        }
        Ok(())
    }

    /// Commits a validated mint: atomically advances the quote from `Paid`
    /// to `Issued` and assembles the response from the signer's blind
    /// signatures, depositing it in the response cache.
    pub fn mint_commit(&mut self, method: Method, quote_id: u128, outputs: &Vec<BlindedMessage>,
        blind_sigs: &Vec<Vec<u8>>, fingerprint: u64, now: u64) -> (r: MintResponse)
        requires
            old(self).wf(),
            mint_validate_result(*old(self), method, quote_id, outputs@, now) is Ok,
            blind_sigs@.len() == outputs@.len(),
        ensures
            final(self).wf(),
            // exactly the quote's state moved, Paid -> Issued
            ({
                let qi = mint_quote_idx(old(self).store.mint_quotes@, quote_id);
                let q = old(self).store.mint_quotes@[qi];
                &&& q.state == MintQuoteState::Paid
                &&& final(self).store.mint_quotes@.len() == old(self).store.mint_quotes@.len()
                &&& final(self).store.mint_quotes@[qi]@
                    == mint_quote_with_state(q@, MintQuoteState::Issued)
                &&& forall|j: int| 0 <= j < old(self).store.mint_quotes@.len() && j != qi
                    ==> final(self).store.mint_quotes@[j] == old(self).store.mint_quotes@[j]
            }),
            final(self).store.melt_quotes@ == old(self).store.melt_quotes@,
            final(self).store.spent@ == old(self).store.spent@,
            final(self).store.bindings@ == old(self).store.bindings@,
            final(self).keysets == old(self).keysets,
            final(self).liquidity == old(self).liquidity,
            final(self).quote_ttl == old(self).quote_ttl,
            r@.signatures.len() == outputs@.len(),
            forall|i: int| 0 <= i < outputs@.len()
                ==> (#[trigger] r@.signatures[i]).amount == outputs@[i].amount
                    && r@.signatures[i].keyset_id == outputs@[i].keyset_id
                    && r@.signatures[i].c == blind_sigs@[i]@,
            final(self).cache.capacity == old(self).cache.capacity,
            cache_contains(final(self).cache.entries@, Route::Mint, fingerprint),
            cache_lookup(final(self).cache.entries@, Route::Mint, fingerprint)
                == if cache_contains(old(self).cache.entries@, Route::Mint, fingerprint) {
                    cache_lookup(old(self).cache.entries@, Route::Mint, fingerprint)
                } else {
                    crate::response_cache::CachedResponseV::Mint(r@)
                },
            // every other cached response survives, but for the oldest
            // entry when the bound forces an eviction
            crate::response_cache::insert_preserves_others(old(self).cache.entries@,
                final(self).cache.entries@, old(self).cache.capacity, Route::Mint,
                fingerprint),
    {
        let idx = self.store.find_mint_quote(quote_id).unwrap();
        self.store.set_mint_quote_state(idx, MintQuoteState::Issued);
        let signatures = crate::swap::build_signatures(outputs, blind_sigs);
        let cached_sigs = crate::protocol::copy_sigs(&signatures);
        let response = MintResponse { signatures };
        self.cache.insert(Route::Mint, fingerprint,
            CachedResponse::Mint(MintResponse { signatures: cached_sigs }));
        response
    }
}

/// Structural comparison of mint states.
pub fn matches_mint_state(a: MintQuoteState, b: MintQuoteState) -> (r: bool)
    ensures
        r == (a == b),
{
    match (a, b) {
        (MintQuoteState::Unpaid, MintQuoteState::Unpaid) => true,
        (MintQuoteState::Paid, MintQuoteState::Paid) => true,
        (MintQuoteState::Issued, MintQuoteState::Issued) => true,
        _ => false,
    }
}

} // verus!

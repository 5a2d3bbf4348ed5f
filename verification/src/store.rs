//! The authoritative-state facade: typed operations over mint quotes, melt
//! quotes, the spent-proof set and the nullifier-to-quote bindings.
//!
//! Membership of the spent set is monotone: nullifiers are inserted and
//! never removed.

use vstd::prelude::*;
use crate::quote::{MintQuote, MeltQuote, MintQuoteState, MeltQuoteState, mint_transition_ok,
    melt_transition_ok};
use crate::bytes::bytes_eq;

verus! {

/// A nullifier committed to a melt quote while it settles.
pub struct MeltBinding {
    pub y: Vec<u8>,
    pub quote: u128,
}

/// The store behind the engines.
pub struct QuoteStore {
    pub mint_quotes: Vec<MintQuote>,
    pub melt_quotes: Vec<MeltQuote>,
    /// Nullifiers of all proofs ever consumed, in insertion order.
    pub spent: Vec<Vec<u8>>,
    /// Which melt quote a spent nullifier was committed to, if any.
    pub bindings: Vec<MeltBinding>,
}

/// The bindings as pairs of nullifier and quote id.
pub open spec fn bindings_view(s: Seq<MeltBinding>) -> Seq<(Seq<u8>, u128)> {
    s.map_values(|b: MeltBinding| (b.y@, b.quote))
}

/// The pairs a batch-bind of `ys` to `quote` appends.
pub open spec fn bound_pairs(ys: Seq<Vec<u8>>, quote: u128) -> Seq<(Seq<u8>, u128)> {
    ys.map_values(|y: Vec<u8>| (y@, quote))
}

/// The spent set as a sequence of byte strings.
pub open spec fn spent_view(s: Seq<Vec<u8>>) -> Seq<Seq<u8>> {
    s.map_values(|v: Vec<u8>| v@)
}

/// Whether a nullifier is in the spent set.
pub open spec fn spent_contains(s: Seq<Seq<u8>>, y: Seq<u8>) -> bool {
    exists|i: int| 0 <= i < s.len() && s[i] == y
}

/// Whether some mint quote carries the id.
pub open spec fn contains_mint_quote(s: Seq<MintQuote>, id: u128) -> bool {
    exists|i: int| 0 <= i < s.len() && s[i].id == id
}

/// Index of the mint quote carrying the id; meaningful under uniqueness.
pub open spec fn mint_quote_idx(s: Seq<MintQuote>, id: u128) -> int {
    choose|i: int| 0 <= i < s.len() && s[i].id == id
}

/// Whether some melt quote carries the id.
pub open spec fn contains_melt_quote(s: Seq<MeltQuote>, id: u128) -> bool {
    exists|i: int| 0 <= i < s.len() && s[i].id == id
}

/// Index of the melt quote carrying the id; meaningful under uniqueness.
pub open spec fn melt_quote_idx(s: Seq<MeltQuote>, id: u128) -> int {
    choose|i: int| 0 <= i < s.len() && s[i].id == id
}

impl QuoteStore {
    /// Well-formedness: quote ids are unique within each store and spent
    /// nullifiers are pairwise distinct.
    pub open spec fn wf(self) -> bool {
        &&& forall|i: int, j: int| 0 <= i < j < self.mint_quotes@.len()
            ==> self.mint_quotes@[i].id != self.mint_quotes@[j].id
        &&& forall|i: int, j: int| 0 <= i < j < self.melt_quotes@.len()
            ==> self.melt_quotes@[i].id != self.melt_quotes@[j].id
        &&& forall|i: int, j: int| 0 <= i < j < self.spent@.len()
            ==> self.spent@[i]@ != self.spent@[j]@
    }

    pub fn new() -> (r: QuoteStore)
        ensures
            r.wf(),
            r.mint_quotes@.len() == 0,
            r.melt_quotes@.len() == 0,
            r.spent@.len() == 0,
            r.bindings@.len() == 0,
    {
        QuoteStore {
            mint_quotes: Vec::new(),
            melt_quotes: Vec::new(),
            spent: Vec::new(),
            bindings: Vec::new(),
        }
    }

    /// Whether a nullifier has already been consumed.
    pub fn is_spent(&self, y: &Vec<u8>) -> (r: bool)
        ensures
            r == spent_contains(spent_view(self.spent@), y@),
    {
        let n = self.spent.len();
        let mut i: usize = 0;
        while i < n
            invariant
                n == self.spent@.len(),
                i <= n,
                forall|j: int| 0 <= j < i ==> self.spent@[j]@ != y@,
            decreases n - i,
        {
            if bytes_eq(&self.spent[i], y) {
                proof {
                    assert(spent_view(self.spent@)[i as int] == y@);
                }
                return true;
            }
            i = i + 1;
        }
        proof {
            assert forall|j: int| 0 <= j < spent_view(self.spent@).len()
                implies spent_view(self.spent@)[j] != y@ by {
                assert(self.spent@[j]@ != y@);
            }
        }
        false
    }

    /// Inserts a batch of fresh, pairwise-distinct nullifiers.
    pub fn insert_spent(&mut self, ys: &Vec<Vec<u8>>)
        requires
            old(self).wf(),
            forall|i: int| 0 <= i < ys@.len()
                ==> !spent_contains(spent_view(old(self).spent@), (#[trigger] ys@[i])@),
            forall|i: int, j: int| 0 <= i < j < ys@.len() ==> ys@[i]@ != ys@[j]@,
        ensures
            final(self).wf(),
            spent_view(final(self).spent@)
                == spent_view(old(self).spent@) + spent_view(ys@),
            final(self).mint_quotes@ == old(self).mint_quotes@,
            final(self).melt_quotes@ == old(self).melt_quotes@,
            final(self).bindings@ == old(self).bindings@,
    {
        let ghost orig = self.spent@;
        let ghost all = ys@;
        let n = ys.len();
        let mut k: usize = 0;
        while k < n
            invariant
                all == ys@,
                n == all.len(),
                k <= n,
                self.spent@.len() == orig.len() + k,
                forall|j: int| 0 <= j < orig.len() ==> self.spent@[j]@ == orig[j]@,
                forall|j: int| 0 <= j < k ==> self.spent@[orig.len() + j]@ == all[j]@,
                self.wf(),
                self.mint_quotes@ == old(self).mint_quotes@,
                self.melt_quotes@ == old(self).melt_quotes@,
                self.bindings@ == old(self).bindings@,
                forall|i: int| 0 <= i < all.len()
                    ==> !spent_contains(spent_view(orig), (#[trigger] all[i])@),
                forall|i: int, j: int| 0 <= i < j < all.len() ==> all[i]@ != all[j]@,
            decreases n - k,
        {
            let y = crate::bytes::copy_bytes(&ys[k]);
            proof {
                assert(y@ == all[k as int]@);
                // the inserted nullifier differs from everything already present
                assert forall|j: int| 0 <= j < self.spent@.len()
                    implies self.spent@[j]@ != y@ by {
                    if j < orig.len() {
                        assert(!spent_contains(spent_view(orig), all[k as int]@));
                        assert(spent_view(orig)[j] == orig[j]@);
                    } else {
                        assert(self.spent@[j]@ == all[j - orig.len()]@);
                        assert(all[j - orig.len()]@ != all[k as int]@);
                    }
                }
            }
            self.spent.push(y);
            k = k + 1;
        }
        proof {
            assert(spent_view(self.spent@) =~= spent_view(orig) + spent_view(all));
        }
    }

    /// Registers a fresh mint quote; a colliding id is reported as internal
    /// corruption and changes nothing.
    pub fn insert_mint_quote(&mut self, q: MintQuote) -> (r: Result<(), crate::error::Error>)
        requires
            old(self).wf(),
        ensures
            final(self).wf(),
            final(self).melt_quotes@ == old(self).melt_quotes@,
            final(self).spent@ == old(self).spent@,
            final(self).bindings@ == old(self).bindings@,
            r is Ok <==> !contains_mint_quote(old(self).mint_quotes@, q.id),
            r is Ok ==> final(self).mint_quotes@ == old(self).mint_quotes@.push(q),
            r is Err ==> final(self).mint_quotes@ == old(self).mint_quotes@
                && r->Err_0 == crate::error::Error::Internal,
    {
        let n = self.mint_quotes.len();
        let mut i: usize = 0;
        while i < n
            invariant
                self.wf(),
                self == old(self),
                n == self.mint_quotes@.len(),
                i <= n,
                forall|j: int| 0 <= j < i ==> self.mint_quotes@[j].id != q.id,
            decreases n - i,
        {
            if self.mint_quotes[i].id == q.id {
                return Err(crate::error::Error::Internal);
            }
            i = i + 1;
        }
        self.mint_quotes.push(q);
        Ok(())
    }

    /// Registers a fresh melt quote; a colliding id is reported as internal
    /// corruption and changes nothing.
    pub fn insert_melt_quote(&mut self, q: MeltQuote) -> (r: Result<(), crate::error::Error>)
        requires
            old(self).wf(),
        ensures
            final(self).wf(),
            final(self).mint_quotes@ == old(self).mint_quotes@,
            final(self).spent@ == old(self).spent@,
            final(self).bindings@ == old(self).bindings@,
            r is Ok <==> !contains_melt_quote(old(self).melt_quotes@, q.id),
            r is Ok ==> final(self).melt_quotes@ == old(self).melt_quotes@.push(q),
            r is Err ==> final(self).melt_quotes@ == old(self).melt_quotes@
                && r->Err_0 == crate::error::Error::Internal,
    {
        let n = self.melt_quotes.len();
        let mut i: usize = 0;
        while i < n
            invariant
                self.wf(),
                self == old(self),
                n == self.melt_quotes@.len(),
                i <= n,
                forall|j: int| 0 <= j < i ==> self.melt_quotes@[j].id != q.id,
            decreases n - i,
        {
            if self.melt_quotes[i].id == q.id {
                return Err(crate::error::Error::Internal);
            }
            i = i + 1;
        }
        self.melt_quotes.push(q);
        Ok(())
    }

    /// Position of the mint quote with the given id, if any.
    pub fn find_mint_quote(&self, id: u128) -> (r: Option<usize>)
        requires
            self.wf(),
        ensures
            r is Some <==> contains_mint_quote(self.mint_quotes@, id),
            r is Some ==> r->Some_0 < self.mint_quotes@.len()
                && self.mint_quotes@[r->Some_0 as int].id == id
                && r->Some_0 as int == mint_quote_idx(self.mint_quotes@, id),
    {
        let n = self.mint_quotes.len();
        let mut i: usize = 0;
        while i < n
            invariant
                self.wf(),
                n == self.mint_quotes@.len(),
                i <= n,
                forall|j: int| 0 <= j < i ==> self.mint_quotes@[j].id != id,
            decreases n - i,
        {
            if self.mint_quotes[i].id == id {
                proof {
                    assert(contains_mint_quote(self.mint_quotes@, id));
                    assert(self.mint_quotes@[mint_quote_idx(self.mint_quotes@, id)].id == id);
                    assert(mint_quote_idx(self.mint_quotes@, id) == i as int);
                }
                return Some(i);
            }
            i = i + 1;
        }
        None
    }

    /// Position of the melt quote with the given id, if any.
    pub fn find_melt_quote(&self, id: u128) -> (r: Option<usize>)
        requires
            self.wf(),
        ensures
            r is Some <==> contains_melt_quote(self.melt_quotes@, id),
            r is Some ==> r->Some_0 < self.melt_quotes@.len()
                && self.melt_quotes@[r->Some_0 as int].id == id
                && r->Some_0 as int == melt_quote_idx(self.melt_quotes@, id),
    {
        let n = self.melt_quotes.len();
        let mut i: usize = 0;
        while i < n
            invariant
                self.wf(),
                n == self.melt_quotes@.len(),
                i <= n,
                forall|j: int| 0 <= j < i ==> self.melt_quotes@[j].id != id,
            decreases n - i,
        {
            if self.melt_quotes[i].id == id {
                proof {
                    assert(contains_melt_quote(self.melt_quotes@, id));
                    assert(self.melt_quotes@[melt_quote_idx(self.melt_quotes@, id)].id == id);
                    assert(melt_quote_idx(self.melt_quotes@, id) == i as int);
                }
                return Some(i);
            }
            i = i + 1;
        }
        None
    }

    /// Advances the state of one mint quote along its chain.
    pub fn set_mint_quote_state(&mut self, i: usize, state: MintQuoteState)
        requires
            old(self).wf(),
            i < old(self).mint_quotes@.len(),
            mint_transition_ok(old(self).mint_quotes@[i as int].state, state),
        ensures
            final(self).wf(),
            final(self).mint_quotes@.len() == old(self).mint_quotes@.len(),
            final(self).mint_quotes@[i as int]@ == mint_quote_with_state(
                old(self).mint_quotes@[i as int]@, state),
            forall|j: int| 0 <= j < old(self).mint_quotes@.len() && j != i
                ==> final(self).mint_quotes@[j] == old(self).mint_quotes@[j],
            final(self).melt_quotes@ == old(self).melt_quotes@,
            final(self).spent@ == old(self).spent@,
            final(self).bindings@ == old(self).bindings@,
    {
        let q = &self.mint_quotes[i];
        let updated = MintQuote {
            id: q.id,
            method: q.method,
            unit: q.unit,
            amount: q.amount,
            request: q.request.clone(),
            state,
            expiry: q.expiry,
        };
        self.mint_quotes.set(i, updated);
    }

    /// Advances the state of one melt quote along its chain, recording the
    /// transfer ids settlement produced.
    pub fn set_melt_quote_state(&mut self, i: usize, state: MeltQuoteState,
        transfer_ids: Vec<String>)
        requires
            old(self).wf(),
            i < old(self).melt_quotes@.len(),
            melt_transition_ok(old(self).melt_quotes@[i as int].state, state),
        ensures
            final(self).wf(),
            final(self).melt_quotes@.len() == old(self).melt_quotes@.len(),
            final(self).melt_quotes@[i as int]@ == melt_quote_with_state(
                old(self).melt_quotes@[i as int]@, state,
                transfer_ids@.map_values(|t: String| t@)),
            forall|j: int| 0 <= j < old(self).melt_quotes@.len() && j != i
                ==> final(self).melt_quotes@[j] == old(self).melt_quotes@[j],
            final(self).mint_quotes@ == old(self).mint_quotes@,
            final(self).spent@ == old(self).spent@,
            final(self).bindings@ == old(self).bindings@,
    {
        let q = &self.melt_quotes[i];
        let updated = MeltQuote {
            id: q.id,
            method: q.method,
            unit: q.unit,
            amount: q.amount,
            fee: q.fee,
            request: q.request.clone(),
            state,
            expiry: q.expiry,
            transfer_ids,
        };
        self.melt_quotes.set(i, updated);
    }

    /// Commits a batch of nullifiers to a melt quote.
    pub fn bind_melt(&mut self, ys: &Vec<Vec<u8>>, quote: u128)
        requires
            old(self).wf(),
        ensures
            final(self).wf(),
            bindings_view(final(self).bindings@)
                == bindings_view(old(self).bindings@) + bound_pairs(ys@, quote),
            final(self).mint_quotes@ == old(self).mint_quotes@,
            final(self).melt_quotes@ == old(self).melt_quotes@,
            final(self).spent@ == old(self).spent@,
    {
        let n = ys.len();
        let mut k: usize = 0;
        while k < n
            invariant
                n == ys@.len(),
                k <= n,
                self.wf(),
                self.bindings@.len() == old(self).bindings@.len() + k,
                forall|j: int| 0 <= j < old(self).bindings@.len()
                    ==> self.bindings@[j].y@ == old(self).bindings@[j].y@
                        && self.bindings@[j].quote == old(self).bindings@[j].quote,
                forall|j: int| 0 <= j < k
                    ==> self.bindings@[old(self).bindings@.len() + j].y@ == ys@[j]@
                        && self.bindings@[old(self).bindings@.len() + j].quote == quote,
                self.mint_quotes@ == old(self).mint_quotes@,
                self.melt_quotes@ == old(self).melt_quotes@,
                self.spent@ == old(self).spent@,
            decreases n - k,
        {
            let y = crate::bytes::copy_bytes(&ys[k]);
            self.bindings.push(MeltBinding { y, quote });
            k = k + 1;
        }
        proof {
            assert(bindings_view(self.bindings@)
                =~= bindings_view(old(self).bindings@) + bound_pairs(ys@, quote));
        }
    }
}

/// The image of a mint quote after a state change.
pub open spec fn mint_quote_with_state(q: crate::quote::MintQuoteV, state: MintQuoteState)
    -> crate::quote::MintQuoteV {
    crate::quote::MintQuoteV {
        id: q.id,
        method: q.method,
        unit: q.unit,
        amount: q.amount,
        request: q.request,
        state,
        expiry: q.expiry,
    }
}

/// The image of a melt quote after a state change.
pub open spec fn melt_quote_with_state(q: crate::quote::MeltQuoteV, state: MeltQuoteState,
    transfer_ids: Seq<Seq<char>>) -> crate::quote::MeltQuoteV {
    crate::quote::MeltQuoteV {
        id: q.id,
        method: q.method,
        unit: q.unit,
        amount: q.amount,
        fee: q.fee,
        request: q.request,
        state,
        expiry: q.expiry,
        transfer_ids,
    }
}

} // verus!

//! The node: the shared state every engine operates on, and the request
//! checks the engines have in common.

use vstd::prelude::*;
use crate::amount::{is_key_amount, pow2_u64, sum_amounts, sum_amounts_u128};
use crate::bytes::copy_bytes;
use crate::config::{QuoteTTLConfig, QuoteTTLConfigState};
use crate::digest::{nullifier_of, compute_nullifier};
use crate::keyset::{KeysetCache, contains_info, info_of};
use crate::liquidity::LiquidityRegistry;
use crate::protocol::{Proof, BlindedMessage, MAX_INPUTS_OUTPUTS, MAX_SECRET_LEN, Unit};
use crate::response_cache::{ResponseCache, Route, CachedResponse, cache_contains,
    cache_lookup};
use crate::store::{QuoteStore, spent_view, spent_contains};

verus! {

/// The protocol engine's state.
pub struct Node {
    pub keysets: KeysetCache,
    pub store: QuoteStore,
    pub cache: ResponseCache,
    pub liquidity: LiquidityRegistry,
    pub quote_ttl: QuoteTTLConfigState,
}

impl Node {
    pub open spec fn wf(self) -> bool {
        &&& self.keysets.wf()
        &&& self.store.wf()
        &&& self.cache.wf()
    }

    /// A fresh node with no keysets, no quotes, an empty spent set and an
    /// empty response cache.
    pub fn new(quote_ttl: QuoteTTLConfig, cache_capacity: Option<usize>) -> (r: Node)
        requires
            cache_capacity is Some ==> cache_capacity->Some_0 >= 1,
        ensures
            r.wf(),
            r.keysets.infos@.len() == 0,
            r.keysets.keys@.len() == 0,
            r.store.mint_quotes@.len() == 0,
            r.store.melt_quotes@.len() == 0,
            r.store.spent@.len() == 0,
            r.store.bindings@.len() == 0,
            r.cache.entries@.len() == 0,
            r.liquidity.backends@.len() == 0,
            r.quote_ttl.mint_ttl == quote_ttl.mint_ttl,
            r.quote_ttl.melt_ttl == quote_ttl.melt_ttl,
    {
        Node {
            keysets: KeysetCache::new(),
            store: QuoteStore::new(),
            cache: ResponseCache::new(cache_capacity),
            liquidity: LiquidityRegistry::new(),
            quote_ttl: QuoteTTLConfigState {
                mint_ttl: quote_ttl.mint_ttl,
                melt_ttl: quote_ttl.melt_ttl,
            },
        }
    }

    /// The response cached for a request fingerprint, if any.
    pub fn get_cached_response(&self, route: Route, fingerprint: u64)
        -> (r: Option<&CachedResponse>)
        requires
            self.wf(),
        ensures
            r is Some <==> cache_contains(self.cache.entries@, route, fingerprint),
            r is Some ==> r->Some_0@ == cache_lookup(self.cache.entries@, route, fingerprint),
    {
        self.cache.get(route, fingerprint)
    }

    /// Deposits a response into the cache, best-effort; a key already
    /// present keeps its original body, and every other key keeps its
    /// entry, but for the oldest one when the bound forces an eviction.
    pub fn cache_response(&mut self, route: Route, fingerprint: u64, response: CachedResponse)
        requires
            old(self).wf(),
        ensures
            final(self).wf(),
            final(self).keysets == old(self).keysets,
            final(self).store == old(self).store,
            final(self).liquidity == old(self).liquidity,
            final(self).quote_ttl == old(self).quote_ttl,
            final(self).cache.capacity == old(self).cache.capacity,
            cache_contains(final(self).cache.entries@, route, fingerprint),
            cache_lookup(final(self).cache.entries@, route, fingerprint)
                == if cache_contains(old(self).cache.entries@, route, fingerprint) {
                    cache_lookup(old(self).cache.entries@, route, fingerprint)
                } else {
                    response@
                },
            final(self).cache.entries@ == crate::response_cache::entries_after_insert(
                old(self).cache.entries@, old(self).cache.capacity, route, fingerprint,
                response),
            crate::response_cache::insert_preserves_others(old(self).cache.entries@,
                final(self).cache.entries@, old(self).cache.capacity, route, fingerprint),
    {
        self.cache.insert(route, fingerprint, response);
    }
}

/// Every proof secret is non-empty and within the length bound.
pub open spec fn secrets_ok(inputs: Seq<Proof>) -> bool {
    forall|i: int| 0 <= i < inputs.len()
        ==> 0 < (#[trigger] inputs[i]).secret@.len() <= MAX_SECRET_LEN
}

/// Every proof references a keyset the node knows.
pub open spec fn proofs_keysets_known(n: Node, inputs: Seq<Proof>) -> bool {
    forall|i: int| 0 <= i < inputs.len()
        ==> contains_info(n.keysets.infos@, (#[trigger] inputs[i]).keyset_id)
}

/// Every blinded message references a keyset the node knows.
pub open spec fn messages_keysets_known(n: Node, outputs: Seq<BlindedMessage>) -> bool {
    forall|i: int| 0 <= i < outputs.len()
        ==> contains_info(n.keysets.infos@, (#[trigger] outputs[i]).keyset_id)
}

/// Every proof's keyset denominates the given unit.
pub open spec fn proofs_unit_ok(n: Node, inputs: Seq<Proof>, unit: Unit) -> bool {
    forall|i: int| 0 <= i < inputs.len()
        ==> info_of(n.keysets.infos@, (#[trigger] inputs[i]).keyset_id).unit == unit
}

/// Every blinded message's keyset denominates the given unit.
pub open spec fn messages_unit_ok(n: Node, outputs: Seq<BlindedMessage>, unit: Unit) -> bool {
    forall|i: int| 0 <= i < outputs.len()
        ==> info_of(n.keysets.infos@, (#[trigger] outputs[i]).keyset_id).unit == unit
}

/// Every proof amount is a declared key amount of its keyset.
pub open spec fn proofs_amounts_ok(n: Node, inputs: Seq<Proof>) -> bool {
    forall|i: int| 0 <= i < inputs.len()
        ==> is_key_amount((#[trigger] inputs[i]).amount,
            info_of(n.keysets.infos@, inputs[i].keyset_id).max_order as nat)
}

/// Every blinded-message amount is a declared key amount of its keyset.
pub open spec fn messages_amounts_ok(n: Node, outputs: Seq<BlindedMessage>) -> bool {
    forall|i: int| 0 <= i < outputs.len()
        ==> is_key_amount((#[trigger] outputs[i]).amount,
            info_of(n.keysets.infos@, outputs[i].keyset_id).max_order as nat)
}

/// The nullifiers of a proof list, in order.
pub open spec fn ys_of(inputs: Seq<Proof>) -> Seq<Seq<u8>> {
    inputs.map_values(|p: Proof| nullifier_of(p.secret@))
}

/// No two elements are equal.
pub open spec fn distinct_bytes(s: Seq<Seq<u8>>) -> bool {
    forall|i: int, j: int| 0 <= i < j < s.len() ==> s[i] != s[j]
}

/// None of the nullifiers is in the node's spent set.
pub open spec fn ys_fresh(n: Node, ys: Seq<Seq<u8>>) -> bool {
    forall|i: int| 0 <= i < ys.len()
        ==> !spent_contains(spent_view(n.store.spent@), #[trigger] ys[i])
}

/// The amounts of a proof list, in order.
pub open spec fn input_amounts(inputs: Seq<Proof>) -> Seq<u64> {
    inputs.map_values(|p: Proof| p.amount)
}

/// The amounts of a blinded-message list, in order.
pub open spec fn output_amounts(outputs: Seq<BlindedMessage>) -> Seq<u64> {
    outputs.map_values(|m: BlindedMessage| m.amount)
}

impl Node {
    /// Checks every proof secret against the length bounds.
    pub fn check_secrets(&self, inputs: &Vec<Proof>) -> (r: bool)
        ensures
            r == secrets_ok(inputs@),
    {
        let n = inputs.len();
        let mut i: usize = 0;
        while i < n
            invariant
                n == inputs@.len(),
                i <= n,
                forall|j: int| 0 <= j < i
                    ==> 0 < (#[trigger] inputs@[j]).secret@.len() <= MAX_SECRET_LEN,
            decreases n - i,
        {
            let len = inputs[i].secret.len();
            if len == 0 || len > MAX_SECRET_LEN {
                assert(!secrets_ok(inputs@));
                return false;
            }
            i = i + 1;
        }
        true
    }

    /// Checks that every proof references a known keyset.
    pub fn check_proof_keysets(&self, inputs: &Vec<Proof>) -> (r: bool)
        requires
            self.wf(),
        ensures
            r == proofs_keysets_known(*self, inputs@),
    {
        let n = inputs.len();
        let mut i: usize = 0;
        while i < n
            invariant
                self.wf(),
                n == inputs@.len(),
                i <= n,
                forall|j: int| 0 <= j < i
                    ==> contains_info(self.keysets.infos@, (#[trigger] inputs@[j]).keyset_id),
            decreases n - i,
        {
            if self.keysets.info(inputs[i].keyset_id).is_none() {
                assert(!proofs_keysets_known(*self, inputs@));
                return false;
            }
            i = i + 1;
        }
        true
    }

    /// Checks that every blinded message references a known keyset.
    pub fn check_message_keysets(&self, outputs: &Vec<BlindedMessage>) -> (r: bool)
        requires
            self.wf(),
        ensures
            r == messages_keysets_known(*self, outputs@),
    {
        let n = outputs.len();
        let mut i: usize = 0;
        while i < n
            invariant
                self.wf(),
                n == outputs@.len(),
                i <= n,
                forall|j: int| 0 <= j < i
                    ==> contains_info(self.keysets.infos@, (#[trigger] outputs@[j]).keyset_id),
            decreases n - i,
        {
            if self.keysets.info(outputs[i].keyset_id).is_none() {
                assert(!messages_keysets_known(*self, outputs@));
                return false;
            }
            i = i + 1;
        }
        true
    }

    /// Checks that every proof's keyset denominates `unit`.
    pub fn check_proof_units(&self, inputs: &Vec<Proof>, unit: Unit) -> (r: bool)
        requires
            self.wf(),
            proofs_keysets_known(*self, inputs@),
        ensures
            r == proofs_unit_ok(*self, inputs@, unit),
    {
        let n = inputs.len();
        let mut i: usize = 0;
        while i < n
            invariant
                self.wf(),
                proofs_keysets_known(*self, inputs@),
                n == inputs@.len(),
                i <= n,
                forall|j: int| 0 <= j < i
                    ==> info_of(self.keysets.infos@, (#[trigger] inputs@[j]).keyset_id).unit
                        == unit,
            decreases n - i,
        {
            assert(contains_info(self.keysets.infos@, inputs@[i as int].keyset_id));
            let info = self.keysets.info(inputs[i].keyset_id).unwrap();
            if !crate::liquidity::unit_eq(info.unit, unit) {
                assert(!proofs_unit_ok(*self, inputs@, unit));
                return false;
            }
            i = i + 1;
        }
        true
    }

    /// Checks that every blinded message's keyset denominates `unit`.
    pub fn check_message_units(&self, outputs: &Vec<BlindedMessage>, unit: Unit) -> (r: bool)
        requires
            self.wf(),
            messages_keysets_known(*self, outputs@),
        ensures
            r == messages_unit_ok(*self, outputs@, unit),
    {
        let n = outputs.len();
        let mut i: usize = 0;
        while i < n
            invariant
                self.wf(),
                messages_keysets_known(*self, outputs@),
                n == outputs@.len(),
                i <= n,
                forall|j: int| 0 <= j < i
                    ==> info_of(self.keysets.infos@, (#[trigger] outputs@[j]).keyset_id).unit
                        == unit,
            decreases n - i,
        {
            assert(contains_info(self.keysets.infos@, outputs@[i as int].keyset_id));
            let info = self.keysets.info(outputs[i].keyset_id).unwrap();
            if !crate::liquidity::unit_eq(info.unit, unit) {
                assert(!messages_unit_ok(*self, outputs@, unit));
                return false;
            }
            i = i + 1;
        }
        true
    }

    /// Checks that every proof amount is a declared key amount.
    pub fn check_proof_amounts(&self, inputs: &Vec<Proof>) -> (r: bool)
        requires
            self.wf(),
            proofs_keysets_known(*self, inputs@),
        ensures
            r == proofs_amounts_ok(*self, inputs@),
    {
        let n = inputs.len();
        let mut i: usize = 0;
        while i < n
            invariant
                self.wf(),
                proofs_keysets_known(*self, inputs@),
                n == inputs@.len(),
                i <= n,
                forall|j: int| 0 <= j < i
                    ==> is_key_amount((#[trigger] inputs@[j]).amount,
                        info_of(self.keysets.infos@, inputs@[j].keyset_id).max_order as nat),
            decreases n - i,
        {
            assert(contains_info(self.keysets.infos@, inputs@[i as int].keyset_id));
            let info = self.keysets.info(inputs[i].keyset_id).unwrap();
            if !is_key_amount_exec(inputs[i].amount, info.max_order) {
                assert(!proofs_amounts_ok(*self, inputs@));
                return false;
            }
            i = i + 1;
        }
        true
    }

    /// Checks that every blinded-message amount is a declared key amount.
    pub fn check_message_amounts(&self, outputs: &Vec<BlindedMessage>) -> (r: bool)
        requires
            self.wf(),
            messages_keysets_known(*self, outputs@),
        ensures
            r == messages_amounts_ok(*self, outputs@),
    {
        let n = outputs.len();
        let mut i: usize = 0;
        while i < n
            invariant
                self.wf(),
                messages_keysets_known(*self, outputs@),
                n == outputs@.len(),
                i <= n,
                forall|j: int| 0 <= j < i
                    ==> is_key_amount((#[trigger] outputs@[j]).amount,
                        info_of(self.keysets.infos@, outputs@[j].keyset_id).max_order as nat),
            decreases n - i,
        {
            assert(contains_info(self.keysets.infos@, outputs@[i as int].keyset_id));
            let info = self.keysets.info(outputs[i].keyset_id).unwrap();
            if !is_key_amount_exec(outputs[i].amount, info.max_order) {
                assert(!messages_amounts_ok(*self, outputs@));
                return false;
            }
            i = i + 1;
        }
        true
    }

    /// Computes the nullifiers of a proof list, in order.
    pub fn compute_ys(&self, inputs: &Vec<Proof>) -> (r: Vec<Vec<u8>>)
        ensures
            spent_view(r@) == ys_of(inputs@),
    {
        let mut r: Vec<Vec<u8>> = Vec::new();
        let n = inputs.len();
        let mut i: usize = 0;
        while i < n
            invariant
                n == inputs@.len(),
                i <= n,
                r@.len() == i,
                forall|j: int| 0 <= j < i
                    ==> (#[trigger] r@[j])@ == nullifier_of(inputs@[j].secret@),
            decreases n - i,
        {
            let y = compute_nullifier(&inputs[i].secret);
            r.push(y);
            i = i + 1;
        }
        proof {
            assert(spent_view(r@) =~= ys_of(inputs@));
        }
        r
    }

    /// Checks that no nullifier repeats within the request.
    pub fn check_ys_distinct(&self, ys: &Vec<Vec<u8>>) -> (r: bool)
        ensures
            r == distinct_bytes(spent_view(ys@)),
    {
        let n = ys.len();
        let mut i: usize = 0;
        while i < n
            invariant
                n == ys@.len(),
                i <= n,
                forall|a: int, b: int| 0 <= a < b < n && a < i ==> ys@[a]@ != ys@[b]@,
            decreases n - i,
        {
            let mut j: usize = i + 1;
            while j < n
                invariant
                    n == ys@.len(),
                    i < n,
                    i < j <= n,
                    forall|b: int| i < b < j ==> ys@[i as int]@ != ys@[b]@,
                decreases n - j,
            {
                if crate::bytes::bytes_eq(&ys[i], &ys[j]) {
                    assert(spent_view(ys@)[i as int] == spent_view(ys@)[j as int]);
                    assert(!distinct_bytes(spent_view(ys@)));
                    return false;
                }
                j = j + 1;
            }
            i = i + 1;
        }
        proof {
            assert forall|a: int, b: int| 0 <= a < b < spent_view(ys@).len()
                implies spent_view(ys@)[a] != spent_view(ys@)[b] by {
                assert(ys@[a]@ != ys@[b]@);
            }
        }
        true
    }

    /// Checks that none of the nullifiers has been spent.
    pub fn check_ys_fresh(&self, ys: &Vec<Vec<u8>>) -> (r: bool)
        ensures
            r == ys_fresh(*self, spent_view(ys@)),
    {
        let n = ys.len();
        let mut i: usize = 0;
        while i < n
            invariant
                n == ys@.len(),
                i <= n,
                forall|j: int| 0 <= j < i
                    ==> !spent_contains(spent_view(self.store.spent@),
                        (#[trigger] ys@[j])@),
            decreases n - i,
        {
            if self.store.is_spent(&ys[i]) {
                assert(spent_view(ys@)[i as int] == ys@[i as int]@);
                assert(!ys_fresh(*self, spent_view(ys@)));
                return false;
            }
            i = i + 1;
        }
        proof {
            assert forall|j: int| 0 <= j < spent_view(ys@).len()
                implies !spent_contains(spent_view(self.store.spent@),
                    #[trigger] spent_view(ys@)[j]) by {
                assert(spent_view(ys@)[j] == ys@[j]@);
            }
        }
        true
    }

    /// Sums the amounts of a proof list.
    pub fn sum_input_amounts(&self, inputs: &Vec<Proof>) -> (r: u128)
        requires
            inputs@.len() <= MAX_INPUTS_OUTPUTS,
        ensures
            r == sum_amounts(input_amounts(inputs@)),
    {
        let mut amounts: Vec<u64> = Vec::new();
        let n = inputs.len();
        let mut i: usize = 0;
        while i < n
            invariant
                n == inputs@.len(),
                i <= n,
                amounts@.len() == i,
                forall|j: int| 0 <= j < i ==> amounts@[j] == (#[trigger] inputs@[j]).amount,
            decreases n - i,
        {
            amounts.push(inputs[i].amount);
            i = i + 1;
        }
        proof {
            assert(amounts@ =~= input_amounts(inputs@));
        }
        sum_amounts_u128(&amounts)
    }

    /// Sums the amounts of a blinded-message list.
    pub fn sum_output_amounts(&self, outputs: &Vec<BlindedMessage>) -> (r: u128)
        requires
            outputs@.len() <= MAX_INPUTS_OUTPUTS,
        ensures
            r == sum_amounts(output_amounts(outputs@)),
    {
        let mut amounts: Vec<u64> = Vec::new();
        let n = outputs.len();
        let mut i: usize = 0;
        while i < n
            invariant
                n == outputs@.len(),
                i <= n,
                amounts@.len() == i,
                forall|j: int| 0 <= j < i ==> amounts@[j] == (#[trigger] outputs@[j]).amount,
            decreases n - i,
        {
            amounts.push(outputs[i].amount);
            i = i + 1;
        }
        proof {
            assert(amounts@ =~= output_amounts(outputs@));
        }
        sum_amounts_u128(&amounts)
    }

    /// Copies a nullifier list.
    pub fn copy_ys(&self, ys: &Vec<Vec<u8>>) -> (r: Vec<Vec<u8>>)
        ensures
            spent_view(r@) == spent_view(ys@),
    {
        let mut r: Vec<Vec<u8>> = Vec::new();
        let n = ys.len();
        let mut i: usize = 0;
        while i < n
            invariant
                n == ys@.len(),
                i <= n,
                r@.len() == i,
                forall|j: int| 0 <= j < i ==> (#[trigger] r@[j])@ == ys@[j]@,
            decreases n - i,
        {
            let y = copy_bytes(&ys[i]);
            r.push(y);
            i = i + 1;
        }
        proof {
            assert(spent_view(r@) =~= spent_view(ys@));
        }
        r
    }
}

/// Whether `amount` is a power of two below `2^max_order`, by scanning the
/// possible orders.
pub fn is_key_amount_exec(amount: u64, max_order: u32) -> (r: bool)
    requires
        max_order <= 64,
    ensures
        r == is_key_amount(amount, max_order as nat),
{
    let mut k: u32 = 0;
    while k < max_order
        invariant
            max_order <= 64,
            k <= max_order,
            forall|w: nat| w < k ==> amount != vstd::arithmetic::power2::pow2(w),
        decreases max_order - k,
    {
        if amount == pow2_u64(k) {
            assert(is_key_amount(amount, max_order as nat));
            return true;
        }
        k = k + 1;
    }
    assert forall|w: nat| w < max_order as nat
        implies amount != vstd::arithmetic::power2::pow2(w) by {
    }
    assert(!is_key_amount(amount, max_order as nat));
    false
}

} // verus!

//! The response-idempotence cache: a bounded mapping from `(route,
//! fingerprint)` to a previously returned response body.
//!
//! A duplicate request is answered from here verbatim, so retries never
//! re-execute signer calls or state changes. Insertion is best-effort; on
//! capacity pressure the oldest entry is evicted (FIFO). The cache is
//! process-local: losing it is safe because the store holds authoritative
//! state.

use vstd::prelude::*;
use crate::protocol::{SwapResponse, MintResponse, SwapResponseV, MintResponseV, copy_sigs};
use crate::quote::{MeltQuoteState, copy_strings};

verus! {

/// The cacheable routes.
#[derive(Clone, Copy, Debug, PartialEq, Eq, Structural, Hash)]
pub enum Route {
    Swap,
    Mint,
    Melt,
}

/// The body returned for a melt, mirroring the quote it settled.
#[derive(Debug)]
pub struct MeltResponse {
    pub quote: u128,
    pub amount: u64,
    pub fee: u64,
    pub state: MeltQuoteState,
    pub expiry: u64,
    pub transfer_ids: Vec<String>,
}

/// Mathematical image of a [`MeltResponse`].
pub struct MeltResponseV {
    pub quote: u128,
    pub amount: u64,
    pub fee: u64,
    pub state: MeltQuoteState,
    pub expiry: u64,
    pub transfer_ids: Seq<Seq<char>>,
}

impl View for MeltResponse {
    type V = MeltResponseV;

    open spec fn view(&self) -> MeltResponseV {
        MeltResponseV {
            quote: self.quote,
            amount: self.amount,
            fee: self.fee,
            state: self.state,
            expiry: self.expiry,
            transfer_ids: self.transfer_ids@.map_values(|t: String| t@),
        }
    }
}

/// A response body held for replay.
pub enum CachedResponse {
    Swap(SwapResponse),
    Mint(MintResponse),
    Melt(MeltResponse),
}

/// Mathematical image of a [`CachedResponse`].
pub enum CachedResponseV {
    Swap(SwapResponseV),
    Mint(MintResponseV),
    Melt(MeltResponseV),
}

impl View for CachedResponse {
    type V = CachedResponseV;

    open spec fn view(&self) -> CachedResponseV {
        match self {
            CachedResponse::Swap(r) => CachedResponseV::Swap(r@),
            CachedResponse::Mint(r) => CachedResponseV::Mint(r@),
            CachedResponse::Melt(r) => CachedResponseV::Melt(r@),
        }
    }
}

/// Copies a melt response.
pub fn copy_melt_response(r: &MeltResponse) -> (c: MeltResponse)
    ensures
        c@ == r@,
{
    MeltResponse {
        quote: r.quote,
        amount: r.amount,
        fee: r.fee,
        state: r.state,
        expiry: r.expiry,
        transfer_ids: copy_strings(&r.transfer_ids),
    }
}

/// Copies a cached response body.
pub fn copy_cached_response(r: &CachedResponse) -> (c: CachedResponse)
    ensures
        c@ == r@,
{
    match r {
        CachedResponse::Swap(x) => {
            let signatures = copy_sigs(&x.signatures);
            CachedResponse::Swap(SwapResponse { signatures })
        },
        CachedResponse::Mint(x) => {
            let signatures = copy_sigs(&x.signatures);
            CachedResponse::Mint(MintResponse { signatures })
        },
        CachedResponse::Melt(x) => CachedResponse::Melt(copy_melt_response(x)),
    }
}

/// One cached entry.
pub struct CacheEntry {
    pub route: Route,
    pub fingerprint: u64,
    pub response: CachedResponse,
}

/// The cache proper: entries in insertion order, plus an optional bound.
pub struct ResponseCache {
    pub entries: Vec<CacheEntry>,
    /// `None` means unbounded.
    pub capacity: Option<usize>,
}

/// Whether an entry with this key is present.
pub open spec fn cache_contains(s: Seq<CacheEntry>, route: Route, fp: u64) -> bool {
    exists|i: int| 0 <= i < s.len() && s[i].route == route && s[i].fingerprint == fp
}

/// Index of the entry with this key; meaningful under uniqueness.
pub open spec fn cache_idx(s: Seq<CacheEntry>, route: Route, fp: u64) -> int {
    choose|i: int| 0 <= i < s.len() && s[i].route == route && s[i].fingerprint == fp
}

/// The cached body for this key.
pub open spec fn cache_lookup(s: Seq<CacheEntry>, route: Route, fp: u64) -> CachedResponseV {
    s[cache_idx(s, route, fp)].response@
}

/// The entries after a best-effort insert of `response` under `(route,
/// fp)`: a key already present leaves the cache unchanged; a fresh key is
/// appended, evicting the oldest entry first when the bound is reached.
pub open spec fn entries_after_insert(s: Seq<CacheEntry>, capacity: Option<usize>, route: Route,
    fp: u64, response: CachedResponse) -> Seq<CacheEntry> {
    if cache_contains(s, route, fp) {
        s
    } else if capacity is Some && s.len() >= capacity->Some_0 {
        s.subrange(1, s.len() as int).push(CacheEntry { route, fingerprint: fp, response })
    } else {
        s.push(CacheEntry { route, fingerprint: fp, response })
    }
}

/// Whether an insert under `(route, fp)` into `s` (bounded by `capacity`)
/// evicts the oldest entry.
pub open spec fn insert_evicts(s: Seq<CacheEntry>, capacity: Option<usize>, route: Route,
    fp: u64) -> bool {
    !cache_contains(s, route, fp) && capacity is Some && s.len() >= capacity->Some_0
}

/// What an insert preserves: every key present before keeps its body,
/// except the oldest entry's key when that entry is evicted.
pub open spec fn insert_preserves_others(pre: Seq<CacheEntry>, post: Seq<CacheEntry>,
    capacity: Option<usize>, route: Route, fp: u64) -> bool {
    forall|r2: Route, f2: u64|
        #[trigger] cache_contains(pre, r2, f2)
            && !(insert_evicts(pre, capacity, route, fp)
                && pre[0].route == r2 && pre[0].fingerprint == f2)
        ==> cache_contains(post, r2, f2)
            && cache_lookup(post, r2, f2) == cache_lookup(pre, r2, f2)
}

impl ResponseCache {
    /// Well-formedness: keys are unique and the bound is respected.
    pub open spec fn wf(self) -> bool {
        &&& forall|i: int, j: int| 0 <= i < j < self.entries@.len()
            ==> !((#[trigger] self.entries@[i]).route == (#[trigger] self.entries@[j]).route
                && self.entries@[i].fingerprint == self.entries@[j].fingerprint)
        &&& self.capacity is Some ==> self.entries@.len() <= self.capacity->Some_0
        &&& self.capacity is Some ==> self.capacity->Some_0 >= 1
    }

    /// An empty cache; `capacity` of `None` means unbounded.
    pub fn new(capacity: Option<usize>) -> (r: ResponseCache)
        requires
            capacity is Some ==> capacity->Some_0 >= 1,
        ensures
            r.wf(),
            r.entries@.len() == 0,
            r.capacity == capacity,
    {
        ResponseCache { entries: Vec::new(), capacity }
    }

    /// Returns the response cached under this key, verbatim.
    pub fn get(&self, route: Route, fp: u64) -> (r: Option<&CachedResponse>)
        requires
            self.wf(),
        ensures
            r is Some <==> cache_contains(self.entries@, route, fp),
            r is Some ==> r->Some_0@ == cache_lookup(self.entries@, route, fp),
    {
        let n = self.entries.len();
        let mut i: usize = 0;
        while i < n
            invariant
                self.wf(),
                n == self.entries@.len(),
                i <= n,
                forall|j: int| 0 <= j < i
                    ==> !((#[trigger] self.entries@[j]).route == route
                        && self.entries@[j].fingerprint == fp),
            decreases n - i,
        {
            let e = &self.entries[i];
            if matches_route(e.route, route) && e.fingerprint == fp {
                proof {
                    assert(cache_contains(self.entries@, route, fp));
                    let w = cache_idx(self.entries@, route, fp);
                    assert(self.entries@[w].route == route && self.entries@[w].fingerprint == fp);
                    assert(w == i as int);
                }
                return Some(&self.entries[i].response);
            }
            i = i + 1;
        }
        None
    }

    /// Inserts a response under a key.
    ///
    /// A key already present keeps its original body: the first response
    /// computed for a fingerprint is the one replayed forever. A fresh key
    /// is appended; if the cache is at capacity the oldest entry is evicted
    /// first.
    pub fn insert(&mut self, route: Route, fp: u64, response: CachedResponse)
        requires
            old(self).wf(),
        ensures
            final(self).wf(),
            final(self).capacity == old(self).capacity,
            cache_contains(final(self).entries@, route, fp),
            cache_lookup(final(self).entries@, route, fp)
                == if cache_contains(old(self).entries@, route, fp) {
                    cache_lookup(old(self).entries@, route, fp)
                } else {
                    response@
                },
            // the entries evolve exactly as the FIFO policy dictates
            final(self).entries@ == entries_after_insert(old(self).entries@,
                old(self).capacity, route, fp, response),
            // every other key keeps its body, but for the evicted oldest
            insert_preserves_others(old(self).entries@, final(self).entries@,
                old(self).capacity, route, fp),
    {
        let n = self.entries.len();
        let mut i: usize = 0;
        while i < n
            invariant
                self.wf(),
                self.entries@ == old(self).entries@,
                self.capacity == old(self).capacity,
                n == self.entries@.len(),
                i <= n,
                forall|j: int| 0 <= j < i
                    ==> !((#[trigger] self.entries@[j]).route == route
                        && self.entries@[j].fingerprint == fp),
            decreases n - i,
        {
            let e = &self.entries[i];
            if matches_route(e.route, route) && e.fingerprint == fp {
                proof {
                    assert(cache_contains(self.entries@, route, fp));
                    let w = cache_idx(self.entries@, route, fp);
                    assert(self.entries@[w].route == route && self.entries@[w].fingerprint == fp);
                    assert(w == i as int);
                    assert(insert_preserves_others(old(self).entries@, self.entries@,
                        old(self).capacity, route, fp));
                }
                return;
            }
            i = i + 1;
        }
        proof {
            assert(!cache_contains(self.entries@, route, fp));
        }
        let ghost pre_evict = self.entries@;
        let at_capacity = match self.capacity {
            Some(c) => self.entries.len() >= c,
            None => false,
        };
        if at_capacity {
            self.entries.remove(0);
            proof {
                assert(self.entries@ =~= pre_evict.subrange(1, pre_evict.len() as int));
                assert forall|j: int| 0 <= j < self.entries@.len()
                    implies !((#[trigger] self.entries@[j]).route == route
                        && self.entries@[j].fingerprint == fp) by {
                    assert(self.entries@[j] == pre_evict[j + 1]);
                }
            }
        }
        let ghost pre_push = self.entries@;
        self.entries.push(CacheEntry { route, fingerprint: fp, response });
        proof {
            let pre = old(self).entries@;
            let post = self.entries@;
            let m = post.len() - 1;
            assert(post[m].route == route && post[m].fingerprint == fp);
            assert(cache_contains(post, route, fp));
            let w = cache_idx(post, route, fp);
            assert(post[w].route == route && post[w].fingerprint == fp);
            assert forall|j: int| 0 <= j < m
                implies !((#[trigger] post[j]).route == route
                    && post[j].fingerprint == fp) by {
                assert(post[j] == pre_push[j]);
            }
            assert(w == m);
            assert(post == entries_after_insert(pre, old(self).capacity, route, fp,
                post[m].response));
            // every surviving key resolves to the same entry as before
            assert forall|r2: Route, f2: u64|
                #[trigger] cache_contains(pre, r2, f2)
                    && !(insert_evicts(pre, old(self).capacity, route, fp)
                        && pre[0].route == r2 && pre[0].fingerprint == f2)
                implies cache_contains(post, r2, f2)
                    && cache_lookup(post, r2, f2) == cache_lookup(pre, r2, f2) by {
                let w1 = cache_idx(pre, r2, f2);
                assert(pre[w1].route == r2 && pre[w1].fingerprint == f2);
                // the inserted key was absent before, so (r2, f2) differs
                assert(!(r2 == route && f2 == fp));
                if at_capacity {
                    assert(w1 >= 1);
                    assert(post[w1 - 1] == pre[w1]);
                    assert(cache_contains(post, r2, f2));
                    let w2 = cache_idx(post, r2, f2);
                    assert(post[w2].route == r2 && post[w2].fingerprint == f2);
                    assert(w2 != m);
                    assert(pre[w2 + 1] == post[w2]);
                    assert(w2 + 1 == w1);
                } else {
                    assert(post[w1] == pre[w1]);
                    assert(cache_contains(post, r2, f2));
                    let w2 = cache_idx(post, r2, f2);
                    assert(post[w2].route == r2 && post[w2].fingerprint == f2);
                    assert(w2 != m);
                    assert(pre[w2] == post[w2]);
                    assert(w2 == w1);
                }
            }
        }
    }
}

/// Structural comparison of routes.
fn matches_route(a: Route, b: Route) -> (r: bool)
    ensures
        r == (a == b),
{
    match (a, b) {
        (Route::Swap, Route::Swap) => true,
        (Route::Mint, Route::Mint) => true,
        (Route::Melt, Route::Melt) => true,
        _ => false,
    }
}

/// Replay stability: once a key is present, every later best-effort insert
/// under any key leaves the body cached for that key unchanged, so a
/// replayed request is answered with the byte-identical response.
pub proof fn lemma_cache_replay_stable(pre: ResponseCache, post: ResponseCache,
    route: Route, fp: u64, route2: Route, fp2: u64, response2: CachedResponseV)
    requires
        pre.wf(),
        post.wf(),
        cache_contains(pre.entries@, route, fp),
        // `post` is `pre` after an insert of (route2, fp2) that did not evict
        post.entries@ == pre.entries@
            || (!cache_contains(pre.entries@, route2, fp2)
                && post.entries@.len() == pre.entries@.len() + 1
                && post.entries@[pre.entries@.len() as int].route == route2
                && post.entries@[pre.entries@.len() as int].fingerprint == fp2
                && post.entries@[pre.entries@.len() as int].response@ == response2
                && forall|j: int| 0 <= j < pre.entries@.len()
                    ==> post.entries@[j] == pre.entries@[j]),
    ensures
        cache_contains(post.entries@, route, fp),
        cache_lookup(post.entries@, route, fp) == cache_lookup(pre.entries@, route, fp),
{
    let w = cache_idx(pre.entries@, route, fp);
    assert(pre.entries@[w].route == route && pre.entries@[w].fingerprint == fp);
    assert(post.entries@[w].route == route && post.entries@[w].fingerprint == fp);
    assert(cache_contains(post.entries@, route, fp));
    let w2 = cache_idx(post.entries@, route, fp);
    assert(post.entries@[w2].route == route && post.entries@[w2].fingerprint == fp);
    if w2 != w {
        if w2 < pre.entries@.len() {
            assert(pre.entries@[w2].route == route && pre.entries@[w2].fingerprint == fp);
            assert(false);
        } else {
            assert(post.entries@.len() == pre.entries@.len() + 1);
            assert(false);
        }
    }
}

} // verus!

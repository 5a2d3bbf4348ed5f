//! The keyset cache: an in-memory mapping from keyset id to keyset metadata
//! and to the amount-to-pubkey key map.
//!
//! Keysets are immutable once declared: an entry's key map is installed once
//! and never changes afterwards; only the `active` flag may be toggled when
//! a keyset is rotated. At most one keyset per unit is active at a time.

use vstd::prelude::*;
use vstd::arithmetic::power2::pow2;
use crate::protocol::Unit;
use crate::error::Error;

verus! {

/// Metadata of one keyset.
#[derive(Clone, Copy, Debug, PartialEq, Eq, Structural)]
pub struct KeysetInfo {
    /// Whether new outputs may reference this keyset.
    pub active: bool,
    /// The unit all of the keyset's keys denominate.
    pub unit: Unit,
    /// Rotation index the keyset was declared under.
    pub index: u32,
    /// Number of keys; amounts run from `2^0` to `2^(max_order - 1)`.
    pub max_order: u32,
}

/// One amount-to-pubkey pair of a keyset.
#[derive(Debug)]
pub struct KeysetKey {
    pub amount: u64,
    /// The signer's public key for this amount, as a compressed point.
    pub pubkey: Vec<u8>,
}

/// Mathematical image of a [`KeysetKey`].
pub struct KeysetKeyV {
    pub amount: u64,
    pub pubkey: Seq<u8>,
}

impl View for KeysetKey {
    type V = KeysetKeyV;

    open spec fn view(&self) -> KeysetKeyV {
        KeysetKeyV { amount: self.amount, pubkey: self.pubkey@ }
    }
}

/// Element-wise mathematical image of a key list.
pub open spec fn keys_seq_view(s: Seq<KeysetKey>) -> Seq<KeysetKeyV> {
    s.map_values(|k: KeysetKey| k@)
}

/// A well-formed key list for a keyset of the given order: one key per
/// power of two, in ascending order.
pub open spec fn keys_wf(s: Seq<KeysetKeyV>, max_order: nat) -> bool {
    &&& s.len() == max_order
    &&& max_order <= 64
    &&& forall|k: int| 0 <= k < s.len() ==> (#[trigger] s[k].amount) == pow2(k as nat)
}

/// A keyset id paired with its metadata.
#[derive(Clone, Copy, Debug, PartialEq, Eq, Structural)]
pub struct InfoEntry {
    pub id: u64,
    pub info: KeysetInfo,
}

/// A keyset id paired with its key list.
#[derive(Debug)]
pub struct KeysEntry {
    pub id: u64,
    pub keys: Vec<KeysetKey>,
}

/// The two independent maps of the cache, represented as association lists
/// with unique ids.
pub struct KeysetCache {
    pub infos: Vec<InfoEntry>,
    pub keys: Vec<KeysEntry>,
}

/// Copies a key list.
pub fn copy_keys(v: &Vec<KeysetKey>) -> (r: Vec<KeysetKey>)
    ensures
        keys_seq_view(r@) == keys_seq_view(v@),
{
    let mut r: Vec<KeysetKey> = Vec::new();
    let n = v.len();
    let mut i: usize = 0;
    while i < n
        invariant
            n == v@.len(),
            i <= n,
            r@.len() == i,
            forall|j: int| 0 <= j < i ==> (#[trigger] r@[j])@ == v@[j]@,
        decreases n - i,
    {
        let k = KeysetKey {
            amount: v[i].amount,
            pubkey: crate::bytes::copy_bytes(&v[i].pubkey),
        };
        r.push(k);
        i = i + 1;
    }
    proof {
        assert(keys_seq_view(r@) =~= keys_seq_view(v@));
    }
    r
}

/// Whether some info entry carries the id.
pub open spec fn contains_info(s: Seq<InfoEntry>, id: u64) -> bool {
    exists|i: int| 0 <= i < s.len() && s[i].id == id
}

/// Index of the info entry carrying the id; meaningful under uniqueness.
pub open spec fn info_idx(s: Seq<InfoEntry>, id: u64) -> int {
    choose|i: int| 0 <= i < s.len() && s[i].id == id
}

/// The metadata registered for the id.
pub open spec fn info_of(s: Seq<InfoEntry>, id: u64) -> KeysetInfo {
    s[info_idx(s, id)].info
}

/// Whether some keys entry carries the id.
pub open spec fn contains_keys(s: Seq<KeysEntry>, id: u64) -> bool {
    exists|i: int| 0 <= i < s.len() && s[i].id == id
}

/// Index of the keys entry carrying the id; meaningful under uniqueness.
pub open spec fn keys_idx(s: Seq<KeysEntry>, id: u64) -> int {
    choose|i: int| 0 <= i < s.len() && s[i].id == id
}

/// The key list registered for the id, as a mathematical sequence.
pub open spec fn keys_of(s: Seq<KeysEntry>, id: u64) -> Seq<KeysetKeyV> {
    keys_seq_view(s[keys_idx(s, id)].keys@)
}

impl KeysetCache {
    /// Well-formedness: unique ids in both maps, key lists shaped by their
    /// keyset's order, and at most one active keyset per unit.
    pub open spec fn wf(self) -> bool {
        &&& forall|i: int, j: int|
            0 <= i < j < self.infos@.len() ==> self.infos@[i].id != self.infos@[j].id
        &&& forall|i: int| 0 <= i < self.infos@.len()
            ==> (#[trigger] self.infos@[i]).info.max_order <= 64
        &&& forall|i: int, j: int|
            0 <= i < j < self.keys@.len() ==> self.keys@[i].id != self.keys@[j].id
        &&& forall|i: int| 0 <= i < self.keys@.len()
            ==> contains_info(self.infos@, (#[trigger] self.keys@[i]).id)
                && keys_wf(keys_seq_view(self.keys@[i].keys@),
                    info_of(self.infos@, self.keys@[i].id).max_order as nat)
        &&& forall|i: int, j: int|
            0 <= i < j < self.infos@.len()
                && (#[trigger] self.infos@[i]).info.active
                && (#[trigger] self.infos@[j]).info.active
            ==> self.infos@[i].info.unit != self.infos@[j].info.unit
    }

    pub fn new() -> (r: KeysetCache)
        ensures
            r.wf(),
            r.infos@.len() == 0,
            r.keys@.len() == 0,
    {
        KeysetCache { infos: Vec::new(), keys: Vec::new() }
    }

    /// Looks up the metadata of a keyset.
    pub fn info(&self, id: u64) -> (r: Option<KeysetInfo>)
        requires
            self.wf(),
        ensures
            r is Some <==> contains_info(self.infos@, id),
            r is Some ==> r->Some_0 == info_of(self.infos@, id),
    {
        let n = self.infos.len();
        let mut i: usize = 0;
        while i < n
            invariant
                self.wf(),
                n == self.infos@.len(),
                i <= n,
                forall|j: int| 0 <= j < i ==> self.infos@[j].id != id,
            decreases n - i,
        {
            if self.infos[i].id == id {
                proof {
                    assert(contains_info(self.infos@, id));
                    assert(self.infos@[info_idx(self.infos@, id)].id == id);
                    assert(info_idx(self.infos@, id) == i as int);
                }
                return Some(self.infos[i].info);
            }
            i = i + 1;
        }
        None
    }

    /// Looks up the key list of a keyset.
    pub fn keys(&self, id: u64) -> (r: Option<&Vec<KeysetKey>>)
        requires
            self.wf(),
        ensures
            r is Some <==> contains_keys(self.keys@, id),
            r is Some ==> keys_seq_view(r->Some_0@) == keys_of(self.keys@, id),
    {
        let n = self.keys.len();
        let mut i: usize = 0;
        while i < n
            invariant
                self.wf(),
                n == self.keys@.len(),
                i <= n,
                forall|j: int| 0 <= j < i ==> self.keys@[j].id != id,
            decreases n - i,
        {
            if self.keys[i].id == id {
                proof {
                    assert(contains_keys(self.keys@, id));
                    assert(self.keys@[keys_idx(self.keys@, id)].id == id);
                    assert(keys_idx(self.keys@, id) == i as int);
                }
                return Some(&self.keys[i].keys);
            }
            i = i + 1;
        }
        None
    }

    /// Registers metadata for a keyset id.
    ///
    /// A fresh id is appended. For an id already present the entry must
    /// describe the same immutable shape (unit, index, order); only its
    /// `active` flag is replaced. A reshaped re-declaration is reported as
    /// corruption.
    pub fn insert_info(&mut self, id: u64, info: KeysetInfo) -> (r: Result<(), Error>)
        requires
            old(self).wf(),
            // a newly activated keyset must not clash with another active
            // keyset of the same unit
            info.active ==> forall|i: int|
                0 <= i < old(self).infos@.len()
                    && (#[trigger] old(self).infos@[i]).info.active
                    && old(self).infos@[i].info.unit == info.unit
                ==> old(self).infos@[i].id == id,
            info.max_order <= 64,
        ensures
            final(self).wf(),
            final(self).keys@ == old(self).keys@,
            r is Ok ==> contains_info(final(self).infos@, id)
                && info_of(final(self).infos@, id) == info,
            r is Ok && !contains_info(old(self).infos@, id)
                ==> final(self).infos@ == old(self).infos@.push(InfoEntry { id, info }),
            r is Err ==> final(self).infos@ == old(self).infos@
                && r->Err_0 == Error::Internal,
            r is Err <==> contains_info(old(self).infos@, id)
                && (info_of(old(self).infos@, id).unit != info.unit
                    || info_of(old(self).infos@, id).index != info.index
                    || info_of(old(self).infos@, id).max_order != info.max_order),
            // ids already registered keep their entry, up to the active flag
            forall|id2: u64| contains_info(old(self).infos@, id2)
                ==> contains_info(final(self).infos@, id2)
                    && (id2 != id ==> info_of(final(self).infos@, id2)
                        == info_of(old(self).infos@, id2)),
            // no id appears beyond those registered before, plus this one
            forall|id2: u64| contains_info(final(self).infos@, id2)
                ==> contains_info(old(self).infos@, id2) || id2 == id,
    {
        let n = self.infos.len();
        let mut i: usize = 0;
        while i < n
            invariant
                self.wf(),
                self.infos@ == old(self).infos@,
                self.keys@ == old(self).keys@,
                n == self.infos@.len(),
                i <= n,
                forall|j: int| 0 <= j < i ==> self.infos@[j].id != id,
                info.active ==> forall|w: int|
                    0 <= w < self.infos@.len()
                        && (#[trigger] self.infos@[w]).info.active
                        && self.infos@[w].info.unit == info.unit
                    ==> self.infos@[w].id == id,
                info.max_order <= 64,
            decreases n - i,
        {
            if self.infos[i].id == id {
                proof {
                    assert(contains_info(self.infos@, id));
                    assert(self.infos@[info_idx(self.infos@, id)].id == id);
                    assert(info_idx(self.infos@, id) == i as int);
                }
                let existing = self.infos[i].info;
                if existing.unit != info.unit || existing.index != info.index
                    || existing.max_order != info.max_order {
                    return Err(Error::Internal);
                }
                let ghost old_infos = self.infos@;
                self.infos.set(i, InfoEntry { id, info });
                proof {
                    assert forall|id2: u64| contains_info(old_infos, id2)
                        implies contains_info(self.infos@, id2) by {
                        let w = choose|w: int| 0 <= w < old_infos.len() && old_infos[w].id == id2;
                        assert(self.infos@[w].id == id2);
                    }
                    assert forall|id2: u64| contains_info(old_infos, id2) && id2 != id
                        implies info_of(self.infos@, id2) == info_of(old_infos, id2) by {
                        let w1 = info_idx(old_infos, id2);
                        let w2 = info_idx(self.infos@, id2);
                        assert(old_infos[w1].id == id2);
                        assert(self.infos@[w2].id == id2);
                        assert(w1 != i as int && w2 != i as int);
                        assert(self.infos@[w1].id == id2);
                        assert(w1 == w2);
                    }
                    assert(info_idx(self.infos@, id) == i as int);
                    assert forall|id2: u64| contains_info(self.infos@, id2)
                        implies contains_info(old_infos, id2) || id2 == id by {
                        let w = info_idx(self.infos@, id2);
                        assert(self.infos@[w].id == id2);
                        if w != i as int {
                            assert(old_infos[w].id == id2);
                        }
                    }
                }
                return Ok(());
            }
            i = i + 1;
        }
        self.infos.push(InfoEntry { id, info });
        proof {
            let m = self.infos@.len() - 1;
            assert(self.infos@[m].id == id);
            assert(contains_info(self.infos@, id));
            assert(info_idx(self.infos@, id) == m);
            assert forall|id2: u64| contains_info(old(self).infos@, id2)
                implies contains_info(self.infos@, id2)
                    && (id2 != id ==> info_of(self.infos@, id2)
                        == info_of(old(self).infos@, id2)) by {
                let w1 = info_idx(old(self).infos@, id2);
                assert(old(self).infos@[w1].id == id2);
                assert(self.infos@[w1].id == id2);
                if id2 != id {
                    let w2 = info_idx(self.infos@, id2);
                    assert(self.infos@[w2].id == id2);
                    assert(w2 != m);
                    assert(w1 == w2);
                }
            }
            assert forall|id2: u64| contains_info(self.infos@, id2)
                implies contains_info(old(self).infos@, id2) || id2 == id by {
                let w = info_idx(self.infos@, id2);
                assert(self.infos@[w].id == id2);
                if w != m {
                    assert(old(self).infos@[w].id == id2);
                }
            }
        }
        Ok(())
    }

    /// Installs the key list of a keyset, exactly once.
    ///
    /// The keyset's metadata must already be registered and the list must
    /// match its declared order. If keys are already installed for the id
    /// they are left untouched: a keyset's key map never changes across the
    /// process lifetime.
    pub fn insert_keys(&mut self, id: u64, keys: Vec<KeysetKey>)
        requires
            old(self).wf(),
            contains_info(old(self).infos@, id),
            keys_wf(keys_seq_view(keys@), info_of(old(self).infos@, id).max_order as nat),
        ensures
            final(self).wf(),
            final(self).infos@ == old(self).infos@,
            contains_keys(final(self).keys@, id),
            !contains_keys(old(self).keys@, id)
                ==> final(self).keys@.len() == old(self).keys@.len() + 1
                    && keys_of(final(self).keys@, id) == keys_seq_view(keys@),
            // keyset immutability: every key list already installed is unchanged
            forall|id2: u64| contains_keys(old(self).keys@, id2)
                ==> contains_keys(final(self).keys@, id2)
                    && keys_of(final(self).keys@, id2) == keys_of(old(self).keys@, id2),
            // no id gains keys beyond those installed before, plus this one
            forall|id2: u64| contains_keys(final(self).keys@, id2)
                ==> contains_keys(old(self).keys@, id2) || id2 == id,
    {
        let n = self.keys.len();
        let mut i: usize = 0;
        while i < n
            invariant
                self.wf(),
                n == self.keys@.len(),
                i <= n,
                forall|j: int| 0 <= j < i ==> self.keys@[j].id != id,
                self.infos@ == old(self).infos@,
                self.keys@ == old(self).keys@,
            decreases n - i,
        {
            if self.keys[i].id == id {
                proof {
                    assert(contains_keys(self.keys@, id));
                }
                return;
            }
            i = i + 1;
        }
        self.keys.push(KeysEntry { id, keys });
        proof {
            let m = self.keys@.len() - 1;
            assert(self.keys@[m].id == id);
            assert(contains_keys(self.keys@, id));
            assert(keys_idx(self.keys@, id) == m);
            assert forall|id2: u64| contains_keys(old(self).keys@, id2)
                implies contains_keys(self.keys@, id2)
                    && keys_of(self.keys@, id2) == keys_of(old(self).keys@, id2) by {
                let w1 = keys_idx(old(self).keys@, id2);
                assert(old(self).keys@[w1].id == id2);
                assert(self.keys@[w1].id == id2);
                let w2 = keys_idx(self.keys@, id2);
                assert(self.keys@[w2].id == id2);
                assert(w2 != m);
                assert(w1 == w2);
            }
            assert forall|id2: u64| contains_keys(self.keys@, id2)
                implies contains_keys(old(self).keys@, id2) || id2 == id by {
                let w = keys_idx(self.keys@, id2);
                assert(self.keys@[w].id == id2);
                if w != m {
                    assert(old(self).keys@[w].id == id2);
                }
            }
        }
    }

    /// Clears the `active` flag of every keyset of `unit` other than
    /// `except_id`, so a new keyset can become the unit's active one.
    pub fn deactivate_unit(&mut self, unit: Unit, except_id: u64)
        requires
            old(self).wf(),
        ensures
            final(self).wf(),
            final(self).keys@ == old(self).keys@,
            final(self).infos@.len() == old(self).infos@.len(),
            forall|j: int| 0 <= j < old(self).infos@.len()
                ==> (#[trigger] final(self).infos@[j]).id == old(self).infos@[j].id
                    && final(self).infos@[j].info == (
                        if old(self).infos@[j].info.unit == unit
                            && old(self).infos@[j].id != except_id {
                            KeysetInfo {
                                active: false,
                                ..old(self).infos@[j].info
                            }
                        } else {
                            old(self).infos@[j].info
                        }),
            // no keyset of the unit but `except_id` stays active
            forall|j: int| 0 <= j < final(self).infos@.len()
                && (#[trigger] final(self).infos@[j]).info.active
                && final(self).infos@[j].info.unit == unit
                ==> final(self).infos@[j].id == except_id,
            // lookups are unchanged but for the active flag
            forall|id2: u64| contains_info(old(self).infos@, id2)
                ==> contains_info(final(self).infos@, id2)
                    && info_of(final(self).infos@, id2).unit
                        == info_of(old(self).infos@, id2).unit
                    && info_of(final(self).infos@, id2).index
                        == info_of(old(self).infos@, id2).index
                    && info_of(final(self).infos@, id2).max_order
                        == info_of(old(self).infos@, id2).max_order,
            // keysets of other units are untouched entirely
            forall|id2: u64| contains_info(old(self).infos@, id2)
                    && info_of(old(self).infos@, id2).unit != unit
                ==> info_of(final(self).infos@, id2) == info_of(old(self).infos@, id2),
            // the registered ids are exactly as before
            forall|id2: u64| contains_info(final(self).infos@, id2)
                ==> contains_info(old(self).infos@, id2),
    {
        let n = self.infos.len();
        let mut i: usize = 0;
        while i < n
            invariant
                old(self).wf(),
                self.keys@ == old(self).keys@,
                n == self.infos@.len() == old(self).infos@.len(),
                i <= n,
                forall|j: int| 0 <= j < n
                    ==> (#[trigger] self.infos@[j]).id == old(self).infos@[j].id,
                forall|j: int| 0 <= j < i
                    ==> (#[trigger] self.infos@[j]).info == (
                        if old(self).infos@[j].info.unit == unit
                            && old(self).infos@[j].id != except_id {
                            KeysetInfo {
                                active: false,
                                ..old(self).infos@[j].info
                            }
                        } else {
                            old(self).infos@[j].info
                        }),
                forall|j: int| i <= j < n
                    ==> (#[trigger] self.infos@[j]).info == old(self).infos@[j].info,
            decreases n - i,
        {
            let e = self.infos[i];
            if crate::liquidity::unit_eq(e.info.unit, unit) && e.id != except_id {
                let cleared = KeysetInfo {
                    active: false,
                    unit: e.info.unit,
                    index: e.info.index,
                    max_order: e.info.max_order,
                };
                self.infos.set(i, InfoEntry { id: e.id, info: cleared });
            }
            i = i + 1;
        }
        proof {
            let post = self.infos@;
            let pre = old(self).infos@;
            assert forall|i2: int| 0 <= i2 < self.keys@.len()
                implies contains_info(post, (#[trigger] self.keys@[i2]).id)
                    && keys_wf(keys_seq_view(self.keys@[i2].keys@),
                        info_of(post, self.keys@[i2].id).max_order as nat) by {
                let id2 = self.keys@[i2].id;
                let w1 = info_idx(pre, id2);
                assert(pre[w1].id == id2);
                assert(post[w1].id == id2);
                assert(contains_info(post, id2));
                let w2 = info_idx(post, id2);
                assert(post[w2].id == id2);
                assert(pre[w2].id == id2);
                assert(w1 == w2);
                assert(post[w2].info.max_order == pre[w1].info.max_order);
            }
            assert forall|id2: u64| contains_info(pre, id2)
                implies contains_info(post, id2)
                    && info_of(post, id2).unit == info_of(pre, id2).unit
                    && info_of(post, id2).index == info_of(pre, id2).index
                    && info_of(post, id2).max_order == info_of(pre, id2).max_order by {
                let w1 = info_idx(pre, id2);
                assert(pre[w1].id == id2);
                assert(post[w1].id == id2);
                assert(contains_info(post, id2));
                let w2 = info_idx(post, id2);
                assert(post[w2].id == id2);
                assert(pre[w2].id == id2);
                assert(w1 == w2);
            }
            assert forall|id2: u64| contains_info(pre, id2)
                    && info_of(pre, id2).unit != unit
                implies info_of(post, id2) == info_of(pre, id2) by {
                let w1 = info_idx(pre, id2);
                assert(pre[w1].id == id2);
                assert(post[w1].id == id2);
                assert(contains_info(post, id2));
                let w2 = info_idx(post, id2);
                assert(post[w2].id == id2);
                assert(pre[w2].id == id2);
                assert(w1 == w2);
                assert(post[w1].info == pre[w1].info);
            }
            assert forall|id2: u64| contains_info(post, id2)
                implies contains_info(pre, id2) by {
                let w = info_idx(post, id2);
                assert(post[w].id == id2);
                assert(pre[w].id == id2);
            }
        }
    }

    /// All registered keyset entries, for the keysets listing endpoint.
    pub fn list_infos(&self) -> (r: &Vec<InfoEntry>)
        ensures
            r@ == self.infos@,
    {
        &self.infos
    }

    /// The keyset entries of one unit, in registration order.
    pub fn load_for_unit(&self, unit: Unit) -> (r: Vec<InfoEntry>)
        ensures
            r@ == self.infos@.filter(|e: InfoEntry| e.info.unit == unit),
    {
        let ghost pred = |e: InfoEntry| e.info.unit == unit;
        let mut r: Vec<InfoEntry> = Vec::new();
        let n = self.infos.len();
        let mut i: usize = 0;
        proof {
            reveal(Seq::filter);
            assert(self.infos@.subrange(0, 0) =~= Seq::<InfoEntry>::empty());
            assert(self.infos@.subrange(0, 0).filter(pred) =~= Seq::<InfoEntry>::empty());
        }
        while i < n
            invariant
                n == self.infos@.len(),
                i <= n,
                r@ == self.infos@.subrange(0, i as int).filter(pred),
                pred == (|e: InfoEntry| e.info.unit == unit),
            decreases n - i,
        {
            let e = self.infos[i];
            proof {
                reveal(Seq::filter);
                let prefix = self.infos@.subrange(0, i + 1);
                assert(prefix.drop_last() =~= self.infos@.subrange(0, i as int));
                assert(prefix.last() == self.infos@[i as int]);
            }
            if e.info.unit == unit {
                r.push(e);
            }
            i = i + 1;
        }
        proof {
            assert(self.infos@.subrange(0, n as int) =~= self.infos@);
        }
        r
    }
}

} // verus!

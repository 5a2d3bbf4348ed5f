//! Keyset bootstrap: ingesting the keysets the signer declared on cold
//! start.
//!
//! For each configured unit the caller asks the signer to declare a keyset
//! and hands the response — id and ordered keys — to the node, which
//! validates its shape, marks it the unit's active keyset and installs it
//! in the cache. The signer derives the id from the ordered amount-to-
//! pubkey pairs; a response whose shape does not match the declaration is
//! reported as a protocol violation.

use vstd::prelude::*;
use vstd::arithmetic::power2::pow2;
use crate::error::Error;
use crate::keyset::{KeysetInfo, KeysetKey, keys_wf, keys_seq_view, contains_info, info_of,
    contains_keys, keys_of, copy_keys};
use crate::node::Node;
use crate::protocol::Unit;
use crate::amount::pow2_u64;

verus! {

/// What the signer returns for one `DeclareKeyset` call, as plain values.
#[derive(Debug)]
pub struct DeclaredKeyset {
    pub unit: Unit,
    pub index: u32,
    pub max_order: u32,
    /// The 8-byte keyset fingerprint the signer derived.
    pub keyset_id: u64,
    /// One key per power of two, in ascending amount order.
    pub keys: Vec<KeysetKey>,
}

/// A declared keyset is well-shaped when its key list carries exactly one
/// key per power of two up to its order.
pub open spec fn declared_shape_ok(d: DeclaredKeyset) -> bool {
    keys_wf(keys_seq_view(d.keys@), d.max_order as nat)
}

/// Whether a declared keyset clashes with an already-registered keyset of
/// the same id but another shape.
pub open spec fn declared_conflicts(n: Node, d: DeclaredKeyset) -> bool {
    contains_info(n.keysets.infos@, d.keyset_id)
        && (info_of(n.keysets.infos@, d.keyset_id).unit != d.unit
            || info_of(n.keysets.infos@, d.keyset_id).index != d.index
            || info_of(n.keysets.infos@, d.keyset_id).max_order != d.max_order)
}

/// Whether the `i`-th declared keyset of a bootstrap batch can be
/// installed, judged against the state the bootstrap started from:
/// well-shaped, not clashing with an already-registered shape, and not
/// repeating an id declared earlier in the batch.
pub open spec fn declared_step_ok(n0: Node, declared: Seq<DeclaredKeyset>, i: int) -> bool {
    &&& declared[i].max_order <= 64
    &&& declared_shape_ok(declared[i])
    &&& !declared_conflicts(n0, declared[i])
    &&& forall|j: int| 0 <= j < i
        ==> (#[trigger] declared[j]).keyset_id != declared[i].keyset_id
}

/// Checks that a key list declares exactly the powers of two up to
/// `max_order`, in order.
pub fn check_declared_keys(keys: &Vec<KeysetKey>, max_order: u32) -> (r: bool)
    requires
        max_order <= 64,
    ensures
        r == keys_wf(keys_seq_view(keys@), max_order as nat),
{
    if keys.len() != max_order as usize {
        return false;
    }
    let n = keys.len();
    let mut i: usize = 0;
    while i < n
        invariant
            n == keys@.len(),
            n == max_order as nat <= 64,
            i <= n,
            forall|k: int| 0 <= k < i
                ==> keys_seq_view(keys@)[k].amount == pow2(k as nat),
        decreases n - i,
    {
        if keys[i].amount != pow2_u64(i as u32) {
            assert(keys_seq_view(keys@)[i as int].amount != pow2(i as nat));
            return false;
        }
        assert(keys_seq_view(keys@)[i as int].amount == pow2(i as nat));
        i = i + 1;
    }
    true
}

impl Node {
    /// Installs one declared keyset: validates its shape, deactivates any
    /// other active keyset of the unit, registers it active, and caches its
    /// keys.
    ///
    /// Re-declaring an identical keyset is a harmless no-op (the key map
    /// installed first stays); a response of the wrong shape, or an id
    /// already registered under another shape, is internal corruption and
    /// changes nothing.
    pub fn register_declared_keyset(&mut self, d: &DeclaredKeyset) -> (r: Result<(), Error>)
        requires
            old(self).wf(),
        ensures
            final(self).wf(),
            final(self).store == old(self).store,
            final(self).cache == old(self).cache,
            final(self).liquidity == old(self).liquidity,
            final(self).quote_ttl == old(self).quote_ttl,
            r is Ok <==> d.max_order <= 64 && declared_shape_ok(*d)
                && !declared_conflicts(*old(self), *d),
            r is Err ==> final(self).keysets == old(self).keysets
                && r->Err_0 == Error::Internal,
            r is Ok ==> contains_info(final(self).keysets.infos@, d.keyset_id)
                && info_of(final(self).keysets.infos@, d.keyset_id) == (KeysetInfo {
                    active: true,
                    unit: d.unit,
                    index: d.index,
                    max_order: d.max_order,
                })
                && contains_keys(final(self).keysets.keys@, d.keyset_id),
            // a keyset freshly installed carries exactly the declared keys
            r is Ok && !contains_keys(old(self).keysets.keys@, d.keyset_id)
                ==> keys_of(final(self).keysets.keys@, d.keyset_id)
                    == keys_seq_view(d.keys@),
            // keyset immutability: key maps already installed are unchanged
            forall|id2: u64| contains_keys(old(self).keysets.keys@, id2)
                ==> contains_keys(final(self).keysets.keys@, id2)
                    && keys_of(final(self).keysets.keys@, id2)
                        == keys_of(old(self).keysets.keys@, id2),
            // registered keysets are never dropped or reshaped
            forall|id2: u64| contains_info(old(self).keysets.infos@, id2)
                ==> contains_info(final(self).keysets.infos@, id2)
                    && info_of(final(self).keysets.infos@, id2).unit
                        == info_of(old(self).keysets.infos@, id2).unit
                    && info_of(final(self).keysets.infos@, id2).index
                        == info_of(old(self).keysets.infos@, id2).index
                    && info_of(final(self).keysets.infos@, id2).max_order
                        == info_of(old(self).keysets.infos@, id2).max_order,
            // keysets of other units than the declared one are untouched
            forall|id2: u64| contains_info(old(self).keysets.infos@, id2)
                    && id2 != d.keyset_id
                    && info_of(old(self).keysets.infos@, id2).unit != d.unit
                ==> info_of(final(self).keysets.infos@, id2)
                    == info_of(old(self).keysets.infos@, id2),
            // no id appears or gains keys beyond the declared one
            forall|id2: u64| contains_info(final(self).keysets.infos@, id2)
                ==> contains_info(old(self).keysets.infos@, id2) || id2 == d.keyset_id,
            forall|id2: u64| contains_keys(final(self).keysets.keys@, id2)
                ==> contains_keys(old(self).keysets.keys@, id2) || id2 == d.keyset_id,
    {
        if d.max_order > 64 {
            return Err(Error::Internal);
        }
        if !check_declared_keys(&d.keys, d.max_order) {
            return Err(Error::Internal);
        }
        // refuse a reshaped re-declaration before touching anything
        match self.keysets.info(d.keyset_id) {
            Some(existing) => {
                if !crate::liquidity::unit_eq(existing.unit, d.unit)
                    || existing.index != d.index || existing.max_order != d.max_order {
                    return Err(Error::Internal);
                }
            },
            None => {},
        }
        self.keysets.deactivate_unit(d.unit, d.keyset_id);
        let info = KeysetInfo { active: true, unit: d.unit, index: d.index,
            max_order: d.max_order };
        match self.keysets.insert_info(d.keyset_id, info) {
            Ok(()) => {},
            Err(_) => {
                // unreachable: the shape was checked against the registered
                // entry, which deactivation does not reshape
                return Err(Error::Internal);
            },
        }
        let keys = copy_keys(&d.keys);
        self.keysets.insert_keys(d.keyset_id, keys);
        Ok(())
    }

    /// Installs the keysets declared for the configured units on cold
    /// start, in order: one declaration per unit, each installed active
    /// with its keys. Fails on the first malformed or clashing
    /// declaration, leaving the earlier ones installed.
    pub fn init_first_keysets(&mut self, declared: &Vec<DeclaredKeyset>) -> (r: Result<(), Error>)
        requires
            old(self).wf(),
            // one declaration per configured unit
            forall|i: int, j: int| 0 <= i < j < declared@.len()
                ==> (#[trigger] declared@[i]).unit != (#[trigger] declared@[j]).unit,
        ensures
            final(self).wf(),
            final(self).store == old(self).store,
            final(self).cache == old(self).cache,
            final(self).liquidity == old(self).liquidity,
            final(self).quote_ttl == old(self).quote_ttl,
            // the bootstrap succeeds exactly when every declaration can be
            // installed: well-shaped, no clash with a registered shape,
            // no id repeated within the batch
            r is Ok <==> forall|i: int| 0 <= i < declared@.len()
                ==> declared_step_ok(*old(self), declared@, i),
            r is Err ==> r->Err_0 == Error::Internal,
            // on success each declared keyset is installed active, under
            // exactly its declared shape and (where fresh) its keys
            r is Ok ==> forall|i: int| 0 <= i < declared@.len() ==> ({
                let d = #[trigger] declared@[i];
                &&& contains_info(final(self).keysets.infos@, d.keyset_id)
                &&& info_of(final(self).keysets.infos@, d.keyset_id) == (KeysetInfo {
                    active: true,
                    unit: d.unit,
                    index: d.index,
                    max_order: d.max_order,
                })
                &&& contains_keys(final(self).keysets.keys@, d.keyset_id)
                &&& !contains_keys(old(self).keysets.keys@, d.keyset_id)
                    ==> keys_of(final(self).keysets.keys@, d.keyset_id)
                        == keys_seq_view(d.keys@)
            }),
            // keyset immutability holds across the whole bootstrap
            forall|id2: u64| contains_keys(old(self).keysets.keys@, id2)
                ==> contains_keys(final(self).keysets.keys@, id2)
                    && keys_of(final(self).keysets.keys@, id2)
                        == keys_of(old(self).keysets.keys@, id2),
            // previously registered keysets are never dropped or reshaped
            forall|id2: u64| contains_info(old(self).keysets.infos@, id2)
                ==> contains_info(final(self).keysets.infos@, id2)
                    && info_of(final(self).keysets.infos@, id2).unit
                        == info_of(old(self).keysets.infos@, id2).unit
                    && info_of(final(self).keysets.infos@, id2).index
                        == info_of(old(self).keysets.infos@, id2).index
                    && info_of(final(self).keysets.infos@, id2).max_order
                        == info_of(old(self).keysets.infos@, id2).max_order,
    {
        let n = declared.len();
        let mut i: usize = 0;
        while i < n
            invariant
                n == declared@.len(),
                i <= n,
                self.wf(),
                self.store == old(self).store,
                self.cache == old(self).cache,
                self.liquidity == old(self).liquidity,
                self.quote_ttl == old(self).quote_ttl,
                forall|a: int, b: int| 0 <= a < b < declared@.len()
                    ==> (#[trigger] declared@[a]).unit != (#[trigger] declared@[b]).unit,
                // every step processed so far was installable
                forall|j: int| 0 <= j < i ==> declared_step_ok(*old(self), declared@, j),
                // the processed declarations are installed active and keyed
                forall|j: int| 0 <= j < i ==> ({
                    let d = #[trigger] declared@[j];
                    &&& contains_info(self.keysets.infos@, d.keyset_id)
                    &&& info_of(self.keysets.infos@, d.keyset_id) == (KeysetInfo {
                        active: true,
                        unit: d.unit,
                        index: d.index,
                        max_order: d.max_order,
                    })
                    &&& contains_keys(self.keysets.keys@, d.keyset_id)
                    &&& !contains_keys(old(self).keysets.keys@, d.keyset_id)
                        ==> keys_of(self.keysets.keys@, d.keyset_id)
                            == keys_seq_view(d.keys@)
                }),
                // immutability and shape preservation from the start state
                forall|id2: u64| contains_keys(old(self).keysets.keys@, id2)
                    ==> contains_keys(self.keysets.keys@, id2)
                        && keys_of(self.keysets.keys@, id2)
                            == keys_of(old(self).keysets.keys@, id2),
                forall|id2: u64| contains_info(old(self).keysets.infos@, id2)
                    ==> contains_info(self.keysets.infos@, id2)
                        && info_of(self.keysets.infos@, id2).unit
                            == info_of(old(self).keysets.infos@, id2).unit
                        && info_of(self.keysets.infos@, id2).index
                            == info_of(old(self).keysets.infos@, id2).index
                        && info_of(self.keysets.infos@, id2).max_order
                            == info_of(old(self).keysets.infos@, id2).max_order,
                // nothing is registered or keyed beyond the start state and
                // the processed declarations
                forall|id2: u64| contains_info(self.keysets.infos@, id2)
                    ==> contains_info(old(self).keysets.infos@, id2)
                        || exists|j: int| 0 <= j < i
                            && (#[trigger] declared@[j]).keyset_id == id2,
                forall|id2: u64| contains_keys(self.keysets.keys@, id2)
                    ==> contains_keys(old(self).keysets.keys@, id2)
                        || exists|j: int| 0 <= j < i
                            && (#[trigger] declared@[j]).keyset_id == id2,
            decreases n - i,
        {
            let ghost pre = *self;
            let ghost d = declared@[i as int];
            match self.register_declared_keyset(&declared[i]) {
                Ok(()) => {},
                Err(e) => {
                    proof {
                        // the failed step is not installable from the start
                        // state either
                        assert(!(d.max_order <= 64 && declared_shape_ok(d)
                            && !declared_conflicts(pre, d)));
                        if d.max_order <= 64 && declared_shape_ok(d) {
                            assert(declared_conflicts(pre, d));
                            if contains_info(old(self).keysets.infos@, d.keyset_id) {
                                assert(!declared_step_ok(*old(self), declared@, i as int));
                            } else {
                                let j = choose|j: int| 0 <= j < i
                                    && (#[trigger] declared@[j]).keyset_id == d.keyset_id;
                                assert(declared@[j].keyset_id == d.keyset_id);
                                assert(!declared_step_ok(*old(self), declared@, i as int));
                            }
                        } else {
                            assert(!declared_step_ok(*old(self), declared@, i as int));
                        }
                    }
                    return Err(e);
                },
            }
            proof {
                // the id was not declared earlier in the batch: an earlier
                // occurrence would carry another unit and clash
                assert forall|j: int| 0 <= j < i
                    implies (#[trigger] declared@[j]).keyset_id != d.keyset_id by {
                    if declared@[j].keyset_id == d.keyset_id {
                        assert(info_of(pre.keysets.infos@, d.keyset_id).unit
                            == declared@[j].unit);
                        assert(declared_conflicts(pre, d));
                    }
                }
                // step `i` was installable from the start state
                if contains_info(old(self).keysets.infos@, d.keyset_id) {
                    assert(info_of(pre.keysets.infos@, d.keyset_id).unit
                        == info_of(old(self).keysets.infos@, d.keyset_id).unit);
                    assert(!declared_conflicts(*old(self), d));
                } else {
                    assert(!declared_conflicts(*old(self), d));
                }
                assert(declared_step_ok(*old(self), declared@, i as int));
                // freshly declared keys were installed exactly
                if !contains_keys(old(self).keysets.keys@, d.keyset_id) {
                    assert(!contains_keys(pre.keysets.keys@, d.keyset_id));
                }
                // the earlier installations survive this step untouched
                assert forall|j: int| 0 <= j < i + 1
                    implies ({
                        let d2 = #[trigger] declared@[j];
                        &&& contains_info(self.keysets.infos@, d2.keyset_id)
                        &&& info_of(self.keysets.infos@, d2.keyset_id) == (KeysetInfo {
                            active: true,
                            unit: d2.unit,
                            index: d2.index,
                            max_order: d2.max_order,
                        })
                        &&& contains_keys(self.keysets.keys@, d2.keyset_id)
                        &&& !contains_keys(old(self).keysets.keys@, d2.keyset_id)
                            ==> keys_of(self.keysets.keys@, d2.keyset_id)
                                == keys_seq_view(d2.keys@)
                    }) by {
                    let d2 = declared@[j];
                    if j < i {
                        assert(contains_info(pre.keysets.infos@, d2.keyset_id));
                        assert(d2.keyset_id != d.keyset_id);
                        assert(d2.unit != d.unit);
                        assert(info_of(pre.keysets.infos@, d2.keyset_id).unit != d.unit);
                        assert(contains_keys(pre.keysets.keys@, d2.keyset_id));
                    }
                }
                // domains still reach no further than processed entries
                assert forall|id2: u64| contains_info(self.keysets.infos@, id2)
                    implies contains_info(old(self).keysets.infos@, id2)
                        || exists|j: int| 0 <= j < i + 1
                            && (#[trigger] declared@[j]).keyset_id == id2 by {
                    if !contains_info(old(self).keysets.infos@, id2) {
                        if id2 == d.keyset_id {
                            assert(declared@[i as int].keyset_id == id2);
                        } else {
                            assert(contains_info(pre.keysets.infos@, id2));
                            let j = choose|j: int| 0 <= j < i
                                && (#[trigger] declared@[j]).keyset_id == id2;
                            assert(declared@[j].keyset_id == id2);
                        }
                    }
                }
                assert forall|id2: u64| contains_keys(self.keysets.keys@, id2)
                    implies contains_keys(old(self).keysets.keys@, id2)
                        || exists|j: int| 0 <= j < i + 1
                            && (#[trigger] declared@[j]).keyset_id == id2 by {
                    if !contains_keys(old(self).keysets.keys@, id2) {
                        if id2 == d.keyset_id {
                            assert(declared@[i as int].keyset_id == id2);
                        } else {
                            assert(contains_keys(pre.keysets.keys@, id2));
                            let j = choose|j: int| 0 <= j < i
                                && (#[trigger] declared@[j]).keyset_id == id2;
                            assert(declared@[j].keyset_id == id2);
                        }
                    }
                }
            }
            i = i + 1;
        }
        Ok(())
    }
}

} // verus!

//! Read-only surfaces: keyset listings, the public-keys endpoint, proof
//! state checks and the node-info aggregate.

use vstd::prelude::*;
use vstd::string::StringExecFns;
use crate::bytes::{u64_be_bytes, u64_be_vec, copy_bytes};
use crate::error::Error;
use crate::hexcodec::{hex_of, encode_hex};
use crate::keyset::{InfoEntry, KeysetKey, keys_seq_view, contains_info, info_of, contains_keys,
    keys_of, copy_keys};
use crate::liquidity::BackendEntry;
use crate::node::Node;
use crate::protocol::Unit;
use crate::quote::MeltQuoteState;
use crate::store::{spent_view, spent_contains, contains_melt_quote, melt_quote_idx};

verus! {

/// The state of a nullifier, as the check-state endpoint reports it.
#[derive(Clone, Copy, Debug, PartialEq, Eq, Structural)]
pub enum ProofState {
    Unspent,
    Pending,
    Spent,
}

/// Whether a nullifier is committed to a melt quote that is still
/// `Pending`.
pub open spec fn y_pending(n: Node, y: Seq<u8>) -> bool {
    exists|i: int| 0 <= i < n.store.bindings@.len()
        && (#[trigger] n.store.bindings@[i]).y@ == y
        && contains_melt_quote(n.store.melt_quotes@, n.store.bindings@[i].quote)
        && n.store.melt_quotes@[
            melt_quote_idx(n.store.melt_quotes@, n.store.bindings@[i].quote)].state
            == MeltQuoteState::Pending
}

/// The reported state of one nullifier: pending while a melt holds it,
/// spent once consumed, unspent otherwise.
pub open spec fn proof_state_of(n: Node, y: Seq<u8>) -> ProofState {
    if y_pending(n, y) {
        ProofState::Pending
    } else if spent_contains(spent_view(n.store.spent@), y) {
        ProofState::Spent
    } else {
        ProofState::Unspent
    }
}

/// One entry of the check-state response.
#[derive(Debug)]
pub struct ProofStateEntry {
    pub y: Vec<u8>,
    pub state: ProofState,
}

/// One entry of the keysets listing.
#[derive(Debug)]
pub struct KeysetListEntry {
    /// The keyset fingerprint, in lowercase hex.
    pub id_hex: String,
    pub unit: Unit,
    pub active: bool,
}

/// One entry of the public-keys listing: a keyset with its keys.
#[derive(Debug)]
pub struct KeysetWithKeys {
    pub id: u64,
    pub unit: Unit,
    pub active: bool,
    pub keys: Vec<KeysetKey>,
}

/// The read-only aggregate the info endpoint serves.
#[derive(Debug)]
pub struct NodeInfo {
    pub name: String,
    pub version: String,
    pub description: String,
    /// The signer's root public key, as handed in by the caller.
    pub pubkey: Vec<u8>,
    /// The `(method, unit)` pairs the node settles.
    pub methods: Vec<BackendEntry>,
    /// Unix time the aggregate was assembled at.
    pub time: u64,
}

impl Node {
    /// Whether a nullifier is held by a still-pending melt quote.
    fn y_is_pending(&self, y: &Vec<u8>) -> (r: bool)
        requires
            self.wf(),
        ensures
            r == y_pending(*self, y@),
    {
        let n = self.store.bindings.len();
        let mut i: usize = 0;
        while i < n
            invariant
                self.wf(),
                n == self.store.bindings@.len(),
                i <= n,
                forall|j: int| 0 <= j < i
                    ==> !((#[trigger] self.store.bindings@[j]).y@ == y@
                        && contains_melt_quote(self.store.melt_quotes@,
                            self.store.bindings@[j].quote)
                        && self.store.melt_quotes@[melt_quote_idx(self.store.melt_quotes@,
                            self.store.bindings@[j].quote)].state == MeltQuoteState::Pending),
            decreases n - i,
        {
            if crate::bytes::bytes_eq(&self.store.bindings[i].y, y) {
                let quote_id = self.store.bindings[i].quote;
                if let Some(qi) = self.store.find_melt_quote(quote_id) {
                    if crate::melt::matches_melt_state(self.store.melt_quotes[qi].state,
                        MeltQuoteState::Pending) {
                        return true;
                    }
                }
            }
            i = i + 1;
        }
        false
    }

    /// Reports the state of each given nullifier: `Pending` while a melt
    /// holds it, `Spent` once consumed, `Unspent` otherwise.
    pub fn check_state(&self, ys: &Vec<Vec<u8>>) -> (r: Vec<ProofStateEntry>)
        requires
            self.wf(),
        ensures
            r@.len() == ys@.len(),
            forall|i: int| 0 <= i < ys@.len()
                ==> (#[trigger] r@[i]).y@ == ys@[i]@
                    && r@[i].state == proof_state_of(*self, ys@[i]@),
    {
        let mut r: Vec<ProofStateEntry> = Vec::new();
        let n = ys.len();
        let mut i: usize = 0;
        while i < n
            invariant
                self.wf(),
                n == ys@.len(),
                i <= n,
                r@.len() == i,
                forall|j: int| 0 <= j < i
                    ==> (#[trigger] r@[j]).y@ == ys@[j]@
                        && r@[j].state == proof_state_of(*self, ys@[j]@),
            decreases n - i,
        {
            let y = copy_bytes(&ys[i]);
            let state = if self.y_is_pending(&y) {
                ProofState::Pending
            } else if self.store.is_spent(&y) {
                ProofState::Spent
            } else {
                ProofState::Unspent
            };
            r.push(ProofStateEntry { y, state });
            i = i + 1;
        }
        r
    }

    /// Lists all registered keysets with hex-rendered ids.
    pub fn get_keysets(&self) -> (r: Vec<KeysetListEntry>)
        requires
            self.wf(),
        ensures
            r@.len() == self.keysets.infos@.len(),
            forall|i: int| 0 <= i < r@.len()
                ==> (#[trigger] r@[i]).id_hex@
                        == hex_of(u64_be_bytes(self.keysets.infos@[i].id))
                    && r@[i].unit == self.keysets.infos@[i].info.unit
                    && r@[i].active == self.keysets.infos@[i].info.active,
    {
        let mut r: Vec<KeysetListEntry> = Vec::new();
        let n = self.keysets.infos.len();
        let mut i: usize = 0;
        while i < n
            invariant
                self.wf(),
                n == self.keysets.infos@.len(),
                i <= n,
                r@.len() == i,
                forall|j: int| 0 <= j < i
                    ==> (#[trigger] r@[j]).id_hex@
                            == hex_of(u64_be_bytes(self.keysets.infos@[j].id))
                        && r@[j].unit == self.keysets.infos@[j].info.unit
                        && r@[j].active == self.keysets.infos@[j].info.active,
            decreases n - i,
        {
            let e = self.keysets.infos[i];
            let id_bytes = u64_be_vec(e.id);
            let id_hex = encode_hex(&id_bytes);
            r.push(KeysetListEntry { id_hex, unit: e.info.unit, active: e.info.active });
            i = i + 1;
        }
        r
    }

    /// The public keys of one keyset.
    ///
    /// Fails with `UnknownKeyset` when the id is not registered or its keys
    /// were never installed.
    pub fn get_keys_for_keyset(&self, keyset_id: u64) -> (r: Result<KeysetWithKeys, Error>)
        requires
            self.wf(),
        ensures
            r is Ok <==> contains_info(self.keysets.infos@, keyset_id)
                && contains_keys(self.keysets.keys@, keyset_id),
            r is Ok ==> ({
                let info = info_of(self.keysets.infos@, keyset_id);
                &&& r->Ok_0.id == keyset_id
                &&& r->Ok_0.unit == info.unit
                &&& r->Ok_0.active == info.active
                &&& keys_seq_view(r->Ok_0.keys@) == keys_of(self.keysets.keys@, keyset_id)
            }),
            r is Err ==> r->Err_0 == Error::UnknownKeyset,
    {
        let info = match self.keysets.info(keyset_id) {
            Some(info) => info,
            None => {
                return Err(Error::UnknownKeyset);
            },
        };
        let keys = match self.keysets.keys(keyset_id) {
            Some(keys) => copy_keys(keys),
            None => {
                return Err(Error::UnknownKeyset);
            },
        };
        Ok(KeysetWithKeys { id: keyset_id, unit: info.unit, active: info.active, keys })
    }

    /// The public keys of every keyset whose keys are installed, in
    /// registration order.
    pub fn get_keys_all(&self) -> (r: Vec<KeysetWithKeys>)
        requires
            self.wf(),
        ensures
            ({
                let listed = self.keysets.infos@.filter(
                    |e: InfoEntry| contains_keys(self.keysets.keys@, e.id));
                &&& r@.len() == listed.len()
                &&& forall|i: int| 0 <= i < r@.len()
                    ==> (#[trigger] r@[i]).id == listed[i].id
                        && r@[i].unit == listed[i].info.unit
                        && r@[i].active == listed[i].info.active
                        && keys_seq_view(r@[i].keys@)
                            == keys_of(self.keysets.keys@, listed[i].id)
            }),
    {
        let ghost pred = |e: InfoEntry| contains_keys(self.keysets.keys@, e.id);
        let mut r: Vec<KeysetWithKeys> = Vec::new();
        let n = self.keysets.infos.len();
        let mut i: usize = 0;
        proof {
            reveal(Seq::filter);
            assert(self.keysets.infos@.subrange(0, 0) =~= Seq::<InfoEntry>::empty());
            assert(self.keysets.infos@.subrange(0, 0).filter(pred)
                =~= Seq::<InfoEntry>::empty());
        }
        while i < n
            invariant
                self.wf(),
                n == self.keysets.infos@.len(),
                i <= n,
                pred == (|e: InfoEntry| contains_keys(self.keysets.keys@, e.id)),
                ({
                    let listed = self.keysets.infos@.subrange(0, i as int).filter(pred);
                    &&& r@.len() == listed.len()
                    &&& forall|j: int| 0 <= j < r@.len()
                        ==> (#[trigger] r@[j]).id == listed[j].id
                            && r@[j].unit == listed[j].info.unit
                            && r@[j].active == listed[j].info.active
                            && keys_seq_view(r@[j].keys@)
                                == keys_of(self.keysets.keys@, listed[j].id)
                }),
            decreases n - i,
        {
            let e = self.keysets.infos[i];
            proof {
                reveal(Seq::filter);
                let prefix = self.keysets.infos@.subrange(0, i + 1);
                assert(prefix.drop_last() =~= self.keysets.infos@.subrange(0, i as int));
                assert(prefix.last() == self.keysets.infos@[i as int]);
            }
            match self.keysets.keys(e.id) {
                Some(keys) => {
                    let copied = copy_keys(keys);
                    r.push(KeysetWithKeys {
                        id: e.id,
                        unit: e.info.unit,
                        active: e.info.active,
                        keys: copied,
                    });
                },
                None => {},
            }
            i = i + 1;
        }
        proof {
            assert(self.keysets.infos@.subrange(0, n as int) =~= self.keysets.infos@);
        }
        r
    }

    /// Assembles the read-only node-info aggregate around the signer's
    /// root public key.
    pub fn node_info(&self, root_pubkey: &Vec<u8>, now: u64) -> (r: NodeInfo)
        requires
            self.wf(),
        ensures
            r.pubkey@ == root_pubkey@,
            r.methods@ == self.liquidity.backends@,
            r.time == now,
            r.name@ == "ecash mint node"@,
            r.version@ == "0.1.0"@,
            r.description@ == "a Cashu-style mint backed by a remote signer"@,
    {
        let mut methods: Vec<BackendEntry> = Vec::new();
        let n = self.liquidity.backends.len();
        let mut i: usize = 0;
        while i < n
            invariant
                n == self.liquidity.backends@.len(),
                i <= n,
                methods@ == self.liquidity.backends@.subrange(0, i as int),
            decreases n - i,
        {
            methods.push(self.liquidity.backends[i]);
            proof {
                assert(methods@ =~= self.liquidity.backends@.subrange(0, i + 1));
            }
            i = i + 1;
        }
        proof {
            assert(self.liquidity.backends@.subrange(0, n as int)
                =~= self.liquidity.backends@);
        }
        NodeInfo {
            name: new_string("ecash mint node"),
            version: new_string("0.1.0"),
            description: new_string("a Cashu-style mint backed by a remote signer"),
            pubkey: copy_bytes(root_pubkey),
            methods,
            time: now,
        }
    }
}

/// An owned string with the given contents.
fn new_string(s: &str) -> (r: String)
    ensures
        r@ == s@,
{
    String::from_str(s)
}

} // verus!

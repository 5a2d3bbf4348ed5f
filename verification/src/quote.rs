//! Mint and melt quotes and their state machines.
//!
//! A mint quote only ever moves `Unpaid -> Paid -> Issued`; a melt quote
//! only ever moves `Unpaid -> Pending -> Paid`. No state is revisited, so
//! the sequence of states a quote passes through is a prefix of that chain.

use vstd::prelude::*;
use crate::protocol::{Unit, Method};

verus! {

/// State of a mint quote.
#[derive(Clone, Copy, Debug, PartialEq, Eq, Structural)]
pub enum MintQuoteState {
    Unpaid,
    Paid,
    Issued,
}

/// State of a melt quote.
#[derive(Clone, Copy, Debug, PartialEq, Eq, Structural)]
pub enum MeltQuoteState {
    Unpaid,
    Pending,
    Paid,
}

/// Position of a mint state along the chain `[Unpaid, Paid, Issued]`.
pub open spec fn mint_state_rank(s: MintQuoteState) -> int {
    match s {
        MintQuoteState::Unpaid => 0,
        MintQuoteState::Paid => 1,
        MintQuoteState::Issued => 2,
    }
}

/// Position of a melt state along the chain `[Unpaid, Pending, Paid]`.
pub open spec fn melt_state_rank(s: MeltQuoteState) -> int {
    match s {
        MeltQuoteState::Unpaid => 0,
        MeltQuoteState::Pending => 1,
        MeltQuoteState::Paid => 2,
    }
}

/// The only mint-state steps the engine ever performs: staying put or
/// advancing one position along the chain.
pub open spec fn mint_transition_ok(a: MintQuoteState, b: MintQuoteState) -> bool {
    a == b
        || (a == MintQuoteState::Unpaid && b == MintQuoteState::Paid)
        || (a == MintQuoteState::Paid && b == MintQuoteState::Issued)
}

/// The only melt-state steps the engine ever performs.
pub open spec fn melt_transition_ok(a: MeltQuoteState, b: MeltQuoteState) -> bool {
    a == b
        || (a == MeltQuoteState::Unpaid && b == MeltQuoteState::Pending)
        || (a == MeltQuoteState::Pending && b == MeltQuoteState::Paid)
}

/// Mint monotonicity: a sequence of allowed steps never decreases the rank
/// and never skips a position, so a quote's state history starting at
/// `Unpaid` is a prefix of `[Unpaid, Paid, Issued]` with states repeated.
pub proof fn lemma_mint_states_monotone(s: Seq<MintQuoteState>)
    requires
        forall|i: int| 0 <= i < s.len() - 1
            ==> mint_transition_ok(#[trigger] s[i], s[i + 1]),
    ensures
        forall|i: int, j: int| 0 <= i <= j < s.len()
            ==> mint_state_rank(#[trigger] s[i]) <= mint_state_rank(#[trigger] s[j]),
        forall|i: int| 0 <= i < s.len() - 1
            ==> mint_state_rank(s[i + 1]) <= mint_state_rank(#[trigger] s[i]) + 1,
    decreases s.len(),
{
    if s.len() >= 2 {
        let t = s.drop_last();
        assert forall|i: int| 0 <= i < t.len() - 1
            implies mint_transition_ok(#[trigger] t[i], t[i + 1]) by {
            assert(t[i] == s[i] && t[i + 1] == s[i + 1]);
        }
        lemma_mint_states_monotone(t);
        assert forall|i: int, j: int| 0 <= i <= j < s.len()
            implies mint_state_rank(#[trigger] s[i]) <= mint_state_rank(#[trigger] s[j]) by {
            if j < s.len() - 1 {
                assert(t[i] == s[i] && t[j] == s[j]);
            } else if i < j {
                assert(t[i] == s[i] && t[j - 1] == s[j - 1]);
                assert(mint_state_rank(s[i]) <= mint_state_rank(s[j - 1]));
                assert(mint_transition_ok(s[j - 1], s[j]));
            }
        }
    }
}

/// Melt monotonicity: the melt-state history of a quote starting at
/// `Unpaid` is a prefix of `[Unpaid, Pending, Paid]` with states repeated.
pub proof fn lemma_melt_states_monotone(s: Seq<MeltQuoteState>)
    requires
        forall|i: int| 0 <= i < s.len() - 1
            ==> melt_transition_ok(#[trigger] s[i], s[i + 1]),
    ensures
        forall|i: int, j: int| 0 <= i <= j < s.len()
            ==> melt_state_rank(#[trigger] s[i]) <= melt_state_rank(#[trigger] s[j]),
        forall|i: int| 0 <= i < s.len() - 1
            ==> melt_state_rank(s[i + 1]) <= melt_state_rank(#[trigger] s[i]) + 1,
    decreases s.len(),
{
    if s.len() >= 2 {
        let t = s.drop_last();
        assert forall|i: int| 0 <= i < t.len() - 1
            implies melt_transition_ok(#[trigger] t[i], t[i + 1]) by {
            assert(t[i] == s[i] && t[i + 1] == s[i + 1]);
        }
        lemma_melt_states_monotone(t);
        assert forall|i: int, j: int| 0 <= i <= j < s.len()
            implies melt_state_rank(#[trigger] s[i]) <= melt_state_rank(#[trigger] s[j]) by {
            if j < s.len() - 1 {
                assert(t[i] == s[i] && t[j] == s[j]);
            } else if i < j {
                assert(t[i] == s[i] && t[j - 1] == s[j - 1]);
                assert(melt_state_rank(s[i]) <= melt_state_rank(s[j - 1]));
                assert(melt_transition_ok(s[j - 1], s[j]));
            }
        }
    }
}

/// An agreement to issue tokens of a given amount once an inbound payment
/// settles.
#[derive(Debug)]
pub struct MintQuote {
    pub id: u128,
    pub method: Method,
    pub unit: Unit,
    pub amount: u64,
    /// Backend-issued payment request (deposit address or invoice).
    pub request: String,
    pub state: MintQuoteState,
    /// Unix-seconds instant after which the quote may no longer be used.
    pub expiry: u64,
}

/// Mathematical image of a [`MintQuote`].
pub struct MintQuoteV {
    pub id: u128,
    pub method: Method,
    pub unit: Unit,
    pub amount: u64,
    pub request: Seq<char>,
    pub state: MintQuoteState,
    pub expiry: u64,
}

impl View for MintQuote {
    type V = MintQuoteV;

    open spec fn view(&self) -> MintQuoteV {
        MintQuoteV {
            id: self.id,
            method: self.method,
            unit: self.unit,
            amount: self.amount,
            request: self.request@,
            state: self.state,
            expiry: self.expiry,
        }
    }
}

/// An agreement to redeem tokens and perform an outbound payment.
#[derive(Debug)]
pub struct MeltQuote {
    pub id: u128,
    pub method: Method,
    pub unit: Unit,
    /// Value delivered to the settlement target.
    pub amount: u64,
    /// Fee charged on top; inputs must cover `amount + fee`.
    pub fee: u64,
    /// The outbound settlement target.
    pub request: String,
    pub state: MeltQuoteState,
    pub expiry: u64,
    /// Identifiers of the outbound transfers once settlement ran.
    pub transfer_ids: Vec<String>,
}

/// Mathematical image of a [`MeltQuote`].
pub struct MeltQuoteV {
    pub id: u128,
    pub method: Method,
    pub unit: Unit,
    pub amount: u64,
    pub fee: u64,
    pub request: Seq<char>,
    pub state: MeltQuoteState,
    pub expiry: u64,
    pub transfer_ids: Seq<Seq<char>>,
}

impl View for MeltQuote {
    type V = MeltQuoteV;

    open spec fn view(&self) -> MeltQuoteV {
        MeltQuoteV {
            id: self.id,
            method: self.method,
            unit: self.unit,
            amount: self.amount,
            fee: self.fee,
            request: self.request@,
            state: self.state,
            expiry: self.expiry,
            transfer_ids: self.transfer_ids@.map_values(|t: String| t@),
        }
    }
}

/// Copies a list of transfer ids.
pub fn copy_strings(v: &Vec<String>) -> (r: Vec<String>)
    ensures
        r@.map_values(|t: String| t@) == v@.map_values(|t: String| t@),
{
    let mut r: Vec<String> = Vec::new();
    let n = v.len();
    let mut i: usize = 0;
    while i < n
        invariant
            n == v@.len(),
            i <= n,
            r@.len() == i,
            forall|j: int| 0 <= j < i ==> r@[j]@ == #[trigger] v@[j]@,
        decreases n - i,
    {
        let s = v[i].clone();
        r.push(s);
        i = i + 1;
    }
    proof {
        assert(r@.map_values(|t: String| t@) =~= v@.map_values(|t: String| t@));
    }
    r
}

/// Copies a mint quote.
pub fn copy_mint_quote(q: &MintQuote) -> (r: MintQuote)
    ensures
        r@ == q@,
{
    MintQuote {
        id: q.id,
        method: q.method,
        unit: q.unit,
        amount: q.amount,
        request: q.request.clone(),
        state: q.state,
        expiry: q.expiry,
    }
}

/// Copies a melt quote.
pub fn copy_melt_quote(q: &MeltQuote) -> (r: MeltQuote)
    ensures
        r@ == q@,
{
    MeltQuote {
        id: q.id,
        method: q.method,
        unit: q.unit,
        amount: q.amount,
        fee: q.fee,
        request: q.request.clone(),
        state: q.state,
        expiry: q.expiry,
        transfer_ids: copy_strings(&q.transfer_ids),
    }
}

} // verus!

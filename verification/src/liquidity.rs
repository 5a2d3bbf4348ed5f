//! Liquidity dispatch: the per-unit registry of settlement backends, and
//! the plain shapes of what a backend reports back.
//!
//! The backends themselves live outside the engine (they talk to a
//! settlement system); the engine only decides whether a `(method, unit)`
//! pair is served and consumes the values a backend produced.

use vstd::prelude::*;
use crate::protocol::{Unit, Method};
use crate::error::Error;

verus! {

/// One registered backend capability.
#[derive(Clone, Copy, Debug, PartialEq, Eq, Structural)]
pub struct BackendEntry {
    pub method: Method,
    pub unit: Unit,
}

/// The registry, fixed at startup.
pub struct LiquidityRegistry {
    pub backends: Vec<BackendEntry>,
}

/// Whether a `(method, unit)` pair is served by some backend.
pub open spec fn supports(s: Seq<BackendEntry>, method: Method, unit: Unit) -> bool {
    exists|i: int| 0 <= i < s.len() && s[i].method == method && s[i].unit == unit
}

impl LiquidityRegistry {
    pub fn new() -> (r: LiquidityRegistry)
        ensures
            r.backends@.len() == 0,
    {
        LiquidityRegistry { backends: Vec::new() }
    }

    /// Registers a backend for a `(method, unit)` pair.
    pub fn register(&mut self, method: Method, unit: Unit)
        ensures
            final(self).backends@ == old(self).backends@.push(
                BackendEntry { method, unit }),
            supports(final(self).backends@, method, unit),
    {
        self.backends.push(BackendEntry { method, unit });
        proof {
            let m = self.backends@.len() - 1;
            assert(self.backends@[m].method == method && self.backends@[m].unit == unit);
        }
    }

    /// Resolves a `(method, unit)` pair; failure is the client error
    /// `MethodUnitUnsupported`.
    pub fn resolve(&self, method: Method, unit: Unit) -> (r: Result<(), Error>)
        ensures
            r is Ok <==> supports(self.backends@, method, unit),
            r is Err ==> r->Err_0 == Error::MethodUnitUnsupported,
    {
        let n = self.backends.len();
        let mut i: usize = 0;
        while i < n
            invariant
                n == self.backends@.len(),
                i <= n,
                forall|j: int| 0 <= j < i
                    ==> !((#[trigger] self.backends@[j]).method == method
                        && self.backends@[j].unit == unit),
            decreases n - i,
        {
            let e = self.backends[i];
            if method_eq(e.method, method) && unit_eq(e.unit, unit) {
                proof {
                    assert(supports(self.backends@, method, unit));
                }
                return Ok(());
            }
            i = i + 1;
        }
        Err(Error::MethodUnitUnsupported)
    }
}

/// Structural comparison of methods.
pub fn method_eq(a: Method, b: Method) -> (r: bool)
    ensures
        r == (a == b),
{
    match (a, b) {
        (Method::Mock, Method::Mock) => true,
        (Method::Starknet, Method::Starknet) => true,
        _ => false,
    }
}

/// Structural comparison of units.
pub fn unit_eq(a: Unit, b: Unit) -> (r: bool)
    ensures
        r == (a == b),
{
    match (a, b) {
        (Unit::MilliStrk, Unit::MilliStrk) => true,
        (Unit::Strk, Unit::Strk) => true,
        _ => false,
    }
}

/// What the backend reports when asked whether a deposit settled.
#[derive(Clone, Copy, Debug, PartialEq, Eq, Structural)]
pub struct DepositObservation {
    pub paid: bool,
}

/// The price a backend quotes for an outbound settlement.
#[derive(Clone, Copy, Debug, PartialEq, Eq, Structural)]
pub struct WithdrawalQuote {
    pub amount: u64,
    pub fee: u64,
}

/// What a backend reports after an outbound settlement attempt.
#[derive(Debug)]
pub struct SettlementOutcome {
    /// Identifiers of the transfers the backend performed.
    pub transfer_ids: Vec<String>,
    /// Whether settlement is final; `false` leaves the melt pending.
    pub settled: bool,
}

} // verus!

//! Quote identifiers: 128-bit values generated from random UUIDs.
//!
//! Nothing is promised of a generated value; every consumer of an id must
//! work — and is verified — for any value handed to it, and the quote store
//! rejects a colliding id instead of assuming freshness.

use vstd::prelude::*;

verus! {

/// Relies on `uuid::Uuid::new_v4`: a random version-4 UUID, taken as its
/// 128-bit value. The result depends on the process's randomness source, so
/// nothing is stated about it. If the operating system's randomness source
/// fails, the call aborts the process — an environment failure, not an
/// input-dependent one.
#[verifier::external_body]
pub fn generate_quote_id() -> (r: u128)
{
    uuid::Uuid::new_v4().as_u128()
}

} // verus!

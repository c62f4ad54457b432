//! The two environmental inputs of the simulators: the wall clock and the
//! generation of fresh identifiers. Both are inherently nondeterministic,
//! so their contracts promise nothing; every caller states what holds of
//! whatever value comes back.

use vstd::prelude::*;

verus! {

/// Relies on chrono's `Utc::now`, read as milliseconds since the Unix epoch
/// through `DateTime::timestamp_millis`. A wall clock can return anything
/// (it may even step backwards between calls), so nothing is promised.
#[verifier::external_body]
pub(crate) fn now_millis() -> i64 {
    chrono::Utc::now().timestamp_millis()
}

/// Relies on uuid's `Uuid::new_v4`, carried as its 128-bit value through
/// `Uuid::as_u128`. The draw is random, so nothing is promised; callers
/// check for themselves that distinct draws did not collide.
#[verifier::external_body]
pub(crate) fn fresh_id() -> u128 {
    uuid::Uuid::new_v4().as_u128()
}

} // verus!

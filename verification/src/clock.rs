//! The one reading the core takes from the wall clock.

use vstd::prelude::*;

verus! {

/// Relies on chrono: `Utc::now().timestamp_millis()` reads the current
/// moment as milliseconds since the epoch. The reading depends on the
/// clock, so nothing is stated of its value; every caller's contract
/// holds for any reading.
#[verifier::external_body]
pub(crate) fn current_timestamp_millis() -> i64 {
    chrono::Utc::now().timestamp_millis()
}

} // verus!

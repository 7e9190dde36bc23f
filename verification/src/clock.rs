//! The wall clock. Mutations take the current time as an argument, so their
//! contracts hold for every reading; this wrapper is how callers obtain one.

use vstd::prelude::*;

verus! {

/// Relies on chrono's `Utc::now` and `DateTime::timestamp_millis`: the
/// current UTC wall-clock time in milliseconds since the Unix epoch. The
/// clock belongs to the environment, so nothing is assumed of the value.
#[verifier::external_body]
pub fn utc_now_ms() -> u64 {
    chrono::offset::Utc::now().timestamp_millis() as u64
}

} // verus!

//! The wall clock.

use vstd::prelude::*;

verus! {

/// Reads the wall clock: `std::time::SystemTime::now()`, turned into a
/// `chrono::DateTime<Utc>` by chrono's `From<SystemTime>`, then
/// `timestamp_millis()` of it, the milliseconds since the Unix epoch. A clock
/// that stands before 1970 reads as a negative number.
///
/// Nothing is claimed of the value: the clock may stand still or jump in
/// either direction between two readings. chrono holds the years from
/// -262143 to 262142 and does not convert a clock that stands outside them.
#[verifier::external_body]
pub(crate) fn wall_clock_millis() -> (now_ms: i64) {
    chrono::DateTime::<chrono::Utc>::from(std::time::SystemTime::now()).timestamp_millis()
}

} // verus!

//! The wall clock, read as seconds and nanoseconds since the Unix epoch.

use crate::layout::Timestamp;
use vstd::prelude::*;

verus! {

/// Trusted: `std::time::SystemTime::now`, turned into a `chrono::DateTime` in
/// UTC by chrono's `From<SystemTime>` and read through `DateTime::timestamp`
/// and `DateTime::timestamp_subsec_nanos`. The result is whatever the system
/// clock says, so nothing is claimed of it. A clock that reads before the
/// Unix epoch gives negative seconds. chrono panics only on an instant beyond
/// the years it can count, some quarter of a million either side of the
/// epoch.
#[verifier::external_body]
pub(crate) fn now() -> (stamp: Timestamp) {
    let now = chrono::DateTime::<chrono::Utc>::from(std::time::SystemTime::now());
    Timestamp { secs: now.timestamp(), nanos: now.timestamp_subsec_nanos() }
}

} // verus!

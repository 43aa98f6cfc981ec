//! The wall clock.

use vstd::prelude::*;
use crate::values::Timestamp;

verus! {

/// Calls `chrono::Local::now` and reads the local date and time off it, as
/// seconds and nanoseconds. Nothing is known of the instant returned.
#[verifier::external_body]
pub(crate) fn now() -> (t: Timestamp) {
    let t = chrono::Local::now().naive_local().and_utc();
    Timestamp { secs: t.timestamp(), nanos: t.timestamp_subsec_nanos() }
}

} // verus!

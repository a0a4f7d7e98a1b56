//! The current time, by way of the `chrono` crate.

use crate::model::Timestamp;
use vstd::prelude::*;

verus! {

/// Nanoseconds in a second.
pub const NANOS_PER_SECOND: u32 = 1_000_000_000;

/// Reads the clock with `chrono::Utc::now`. Trusted: the instant is not
/// before the Unix epoch, and its nanoseconds are less than a second. The
/// call fails the process where the system clock is set before 1970.
#[verifier::external_body]
pub(crate) fn now() -> (t: Timestamp)
    ensures
        t.seconds >= 0,
        t.nanos < NANOS_PER_SECOND,
{
    let t = chrono::Utc::now();
    Timestamp { seconds: t.timestamp(), nanos: t.timestamp_subsec_nanos() }
}

} // verus!

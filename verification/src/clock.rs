//! Points in time: microseconds since the Unix epoch, in UTC.

use vstd::prelude::*;

verus! {

/// A point in time, in microseconds since 1970-01-01T00:00:00Z.
#[derive(Debug, Clone, Copy, PartialEq, Eq, Structural)]
pub struct Timestamp {
    pub micros: i64,
}

/// `chrono::Utc::now`, read as microseconds since the epoch (`timestamp_micros`): the
/// current time, of which nothing is promised.
#[verifier::external_body]
pub(crate) fn utc_now() -> (t: Timestamp) {
    Timestamp { micros: chrono::Utc::now().timestamp_micros() }
}

/// `chrono::Utc::now().timestamp_nanos_opt()`: the current time in nanoseconds, `None` when
/// it is out of the representable range; of the time nothing is promised.
#[verifier::external_body]
pub(crate) fn utc_now_nanos() -> (t: Option<i64>) {
    chrono::Utc::now().timestamp_nanos_opt()
}

} // verus!

use chrono::Utc;
use vstd::prelude::*;

verus! {

/// An instant on the UTC time line: whole non-leap seconds since the Unix
/// epoch, and the nanoseconds past that second.
#[derive(Clone, Copy, Debug, PartialEq, Eq, Structural)]
pub struct Timestamp {
    pub secs: i64,
    pub nanos: u32,
}

/// Reads the wall clock through `chrono::Utc::now` and splits the instant with
/// `DateTime::timestamp` and `DateTime::timestamp_subsec_nanos`. Nothing is
/// claimed of the instant that comes back: two calls may differ. chrono panics
/// when the system clock reads earlier than the Unix epoch.
#[verifier::external_body]
pub(crate) fn utc_now() -> (now: Timestamp)
{
    let t = Utc::now();
    Timestamp { secs: t.timestamp(), nanos: t.timestamp_subsec_nanos() }
}

} // verus!

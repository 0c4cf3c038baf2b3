//! Timestamps as plain values.
use vstd::prelude::*;

verus! {

/// Nanoseconds in one second.
pub const NANOS_PER_SECOND: u32 = 1_000_000_000;

/// A local date and time, as seconds since 1970-01-01 00:00:00 and the
/// nanoseconds past that second (a leap second reaches past one billion).
#[derive(Debug, Clone, Copy, PartialEq, Eq, Structural)]
pub struct Timestamp {
    pub seconds: i64,
    pub nanos: u32,
}

impl Timestamp {
    pub open spec fn wf(&self) -> bool {
        self.nanos < 2 * NANOS_PER_SECOND
    }

    /// A timestamp from its two parts.
    pub fn new(seconds: i64, nanos: u32) -> (r: Option<Timestamp>)
        ensures
            r is Some <==> nanos < 2 * NANOS_PER_SECOND,
            r matches Some(t) ==> t.seconds == seconds && t.nanos == nanos && t.wf(),
    {
        if nanos < 2 * NANOS_PER_SECOND {
            Some(Timestamp { seconds, nanos })
        } else {
            None
        }
    }
}

/// Relies on chrono::Local::now and DateTime::naive_local: the local wall
/// clock time now, read back through NaiveDateTime::and_utc as seconds and
/// sub-second nanoseconds, which chrono keeps under two billion.
#[verifier::external_body]
pub(crate) fn now_local() -> (r: Timestamp)
    ensures
        r.wf(),
{
    let t = chrono::Local::now().naive_local().and_utc();
    Timestamp { seconds: t.timestamp(), nanos: t.timestamp_subsec_nanos() }
}

} // verus!

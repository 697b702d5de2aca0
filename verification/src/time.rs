//! Instants and ages.

use vstd::prelude::*;

verus! {

/// Nanoseconds in one second.
pub const NANOS_PER_SEC: u32 = 1_000_000_000;

/// Seconds a session may stay idle before it counts as expired, unless the
/// registry is set up otherwise: one hour.
pub const DEFAULT_SESSION_TIMEOUT_SECS: u64 = 3600;

/// Seconds a token stays usable after it was issued, unless the registry is
/// set up otherwise: one day.
pub const DEFAULT_TOKEN_TTL_SECS: u64 = 86_400;

/// An instant on the UTC time line: whole seconds since the Unix epoch and
/// the nanoseconds that follow them.
#[derive(Clone, Copy, Debug, PartialEq, Eq, Structural)]
pub struct Timestamp {
    pub secs: i64,
    pub nanos: u32,
}

impl Timestamp {
    /// The instant as a count of nanoseconds since the Unix epoch.
    pub open spec fn as_nanos(self) -> int {
        self.secs * NANOS_PER_SEC + self.nanos
    }

    /// The instant `nanos` nanoseconds after second `secs` of the Unix epoch.
    pub fn new(secs: i64, nanos: u32) -> (t: Timestamp)
        ensures
            t.secs == secs,
            t.nanos == nanos,
    {
        Timestamp { secs, nanos }
    }
}

/// Nanoseconds that passed from `then` to `now`; negative where `now` is the
/// earlier of the two.
pub open spec fn age_nanos(now: Timestamp, then: Timestamp) -> int {
    now.as_nanos() - then.as_nanos()
}

/// Whether more than `limit_secs` seconds passed from `then` to `now`.
pub open spec fn older_than(now: Timestamp, then: Timestamp, limit_secs: u64) -> bool {
    age_nanos(now, then) > limit_secs * NANOS_PER_SEC
}

/// Decides `older_than` without overflow, for any pair of instants.
pub fn is_older_than(now: Timestamp, then: Timestamp, limit_secs: u64) -> (r: bool)
    ensures
        r == older_than(now, then, limit_secs),
{
    let scale: i128 = NANOS_PER_SEC as i128;
    let now_total: i128 = (now.secs as i128) * scale + (now.nanos as i128);
    let then_total: i128 = (then.secs as i128) * scale + (then.nanos as i128);
    let limit: i128 = (limit_secs as i128) * scale;
    now_total - then_total > limit
}

/// Reads the system clock through `chrono::Utc::now` and hands the reading
/// back as seconds (`DateTime::timestamp`) and nanoseconds
/// (`DateTime::timestamp_subsec_nanos`). Nothing is claimed of the reading:
/// two calls may give any two instants. `Utc::now` panics on a machine whose
/// clock stands before the Unix epoch.
#[verifier::external_body]
pub(crate) fn clock_now() -> (t: Timestamp) {
    let reading = chrono::Utc::now();
    Timestamp { secs: reading.timestamp(), nanos: reading.timestamp_subsec_nanos() }
}

} // verus!

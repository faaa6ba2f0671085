//! Points in time, as whole seconds and nanoseconds since the Unix epoch.

use vstd::prelude::*;

verus! {

/// A UTC instant: `secs` whole seconds since 1970-01-01T00:00:00Z plus
/// `nanos` nanoseconds (beyond 999_999_999 only inside a leap second).
#[derive(Debug, Clone, Copy, PartialEq, Eq, Structural)]
pub struct Timestamp {
    pub secs: i64,
    pub nanos: u32,
}

/// Instants ordered by time.
pub open spec fn at_or_before(a: Timestamp, b: Timestamp) -> bool {
    a.secs < b.secs || (a.secs == b.secs && a.nanos <= b.nanos)
}

/// The signed distance from `a` to `b` in nanoseconds.
pub open spec fn nanos_between(a: Timestamp, b: Timestamp) -> int {
    (b.secs - a.secs) * 1_000_000_000 + (b.nanos - a.nanos)
}

/// The whole seconds from `a` to `b`, negative spans counting as none.
pub open spec fn whole_seconds_between(a: Timestamp, b: Timestamp) -> int {
    let d = nanos_between(a, b);
    if d > 0 {
        d / 1_000_000_000
    } else {
        0
    }
}

impl Timestamp {
    /// Whether `self` is not later than `other`.
    pub fn is_at_or_before(&self, other: &Timestamp) -> (r: bool)
        ensures
            r == at_or_before(*self, *other),
    {
        self.secs < other.secs || (self.secs == other.secs && self.nanos <= other.nanos)
    }
}

/// Calls `chrono::Utc::now` and splits it with `timestamp` and
/// `timestamp_subsec_nanos`. The contract claims only the range that chrono's
/// `DateTime<Utc>` can hold (years -262143..=262142) and that the
/// nanoseconds stay below two seconds' worth (a leap second at most).
#[verifier::external_body]
pub(crate) fn now() -> (t: Timestamp)
    ensures
        -8_400_000_000_000 <= t.secs <= 8_300_000_000_000,
        t.nanos < 2_000_000_000,
{
    let n = chrono::Utc::now();
    Timestamp { secs: n.timestamp(), nanos: n.timestamp_subsec_nanos() }
}

} // verus!

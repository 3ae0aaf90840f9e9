//! Instants in UTC, as seconds and nanoseconds since the Unix epoch.

use vstd::prelude::*;

verus! {

/// Number of nanoseconds in one second.
pub const NANOS_PER_SEC: u32 = 1_000_000_000;

/// Number of seconds in one hour.
pub const SECS_PER_HOUR: i64 = 3600;

/// The last whole second that chrono can represent (the timestamp of
/// `DateTime::<Utc>::MAX_UTC`, 262142-12-31T23:59:59Z).
pub const MAX_SECS: i64 = 8_210_266_876_799;

/// The first second that chrono can represent (the timestamp of
/// `DateTime::<Utc>::MIN_UTC`).
pub const MIN_SECS: i64 = -8_334_601_228_800;

/// `secs` lies within the seconds that chrono can represent.
pub open spec fn representable(secs: int) -> bool {
    MIN_SECS <= secs <= MAX_SECS
}

/// An instant in UTC: whole seconds since 1970-01-01T00:00:00Z and the
/// nanoseconds past that second (beyond a billion only inside a leap second).
#[derive(Clone, Copy, Debug, PartialEq, Eq, Structural)]
pub struct Timestamp {
    pub secs: i64,
    pub nanos: u32,
}

/// `a` is strictly later than `b` (instants order by second, then nanosecond).
pub open spec fn later_than(a: Timestamp, b: Timestamp) -> bool {
    a.secs > b.secs || (a.secs == b.secs && a.nanos > b.nanos)
}

/// `t` moved forward by `hours` hours.
pub open spec fn plus_hours_spec(t: Timestamp, hours: int) -> Timestamp {
    Timestamp { secs: (t.secs + hours * SECS_PER_HOUR) as i64, nanos: t.nanos }
}

impl Timestamp {
    pub fn new(secs: i64, nanos: u32) -> (t: Timestamp)
        ensures
            t.secs == secs,
            t.nanos == nanos,
    {
        Timestamp { secs, nanos }
    }

    /// Whether `self` lies strictly after `other`.
    pub fn is_later_than(&self, other: &Timestamp) -> (res: bool)
        ensures
            res == later_than(*self, *other),
    {
        self.secs > other.secs || (self.secs == other.secs && self.nanos > other.nanos)
    }

    /// The instant `hours` hours after `self` (before it, for negative
    /// `hours`), or `None` when that instant lies outside the seconds that
    /// chrono can represent (where chrono's own addition panics).
    pub fn checked_add_hours(&self, hours: i64) -> (res: Option<Timestamp>)
        ensures
            res matches Some(t) ==> t == plus_hours_spec(*self, hours as int),
            res is None <==> !representable(self.secs + hours * SECS_PER_HOUR),
    {
        let moved: i128 = (self.secs as i128) + (hours as i128) * 3600;
        if moved < MIN_SECS as i128 || moved > MAX_SECS as i128 {
            None
        } else {
            Some(Timestamp { secs: moved as i64, nanos: self.nanos })
        }
    }
}

/// The current instant, read from the system clock through `chrono::Utc::now`.
/// Nothing is promised of the value but what every reading has: it is not
/// before the Unix epoch (chrono panics on a clock set before it) and its
/// nanoseconds are below one billion (they come from a `Duration`).
#[verifier::external_body]
pub(crate) fn now() -> (t: Timestamp)
    ensures
        t.secs >= 0,
        t.nanos < NANOS_PER_SEC,
{
    let now = chrono::Utc::now();
    Timestamp { secs: now.timestamp(), nanos: now.timestamp_subsec_nanos() }
}

/// A moment is never later than itself, and moving forward by a non-negative
/// number of hours never gives an instant before the start.
pub proof fn lemma_fresh_expiry_not_passed(t: Timestamp, hours: int)
    requires
        hours >= 0,
        representable(t.secs + hours * SECS_PER_HOUR),
    ensures
        !later_than(t, plus_hours_spec(t, hours)),
{
    assert(hours * SECS_PER_HOUR >= 0) by (nonlinear_arith)
        requires
            hours >= 0,
    ;
}

} // verus!

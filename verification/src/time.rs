//! Points in time in UTC, read from and moved by `chrono`.
use chrono::{DateTime, TimeDelta, Utc};
use vstd::prelude::*;

verus! {

/// Nanoseconds in a second.
pub const NANOS_PER_SEC: u32 = 1_000_000_000;

/// Seconds in an hour.
pub const SECS_PER_HOUR: u32 = 3600;

/// The first second that a `chrono` date can represent, counted from the Unix epoch
/// (the start of the year -262143).
pub const MIN_SECS: i64 = -8_334_601_228_800;

/// The last second that a `chrono` date can represent, counted from the Unix epoch
/// (the end of the year 262142).
pub const MAX_SECS: i64 = 8_210_266_876_799;

/// A point in time: `nanos` nanoseconds after the `secs`-th second of the Unix epoch.
#[derive(Debug, Clone, Copy, PartialEq, Eq, Structural)]
pub struct UtcTime {
    pub secs: i64,
    pub nanos: u32,
}

impl UtcTime {
    /// The time is one that `chrono` can represent, outside of a leap second.
    pub open spec fn wf(self) -> bool {
        &&& MIN_SECS <= self.secs <= MAX_SECS
        &&& self.nanos < NANOS_PER_SEC
    }

    /// The time is one that the machine's clock may show.
    pub closed spec fn is_reading(self) -> bool {
        self.wf() && self.secs >= 0
    }

    /// Nanoseconds since the Unix epoch.
    pub open spec fn as_nanos(self) -> int {
        self.secs * NANOS_PER_SEC + self.nanos
    }

    /// `self` lies after `other`.
    pub open spec fn is_after_spec(self, other: UtcTime) -> bool {
        self.as_nanos() > other.as_nanos()
    }

    /// `self` lies a whole second or more after `now`.
    pub open spec fn at_least_a_second_after(self, now: UtcTime) -> bool {
        self.as_nanos() - now.as_nanos() >= NANOS_PER_SEC
    }

    /// `self`, moved forward by `seconds`.
    pub open spec fn plus(self, seconds: int) -> UtcTime {
        UtcTime { secs: (self.secs + seconds) as i64, nanos: self.nanos }
    }

    /// `self` can be moved forward by `seconds` and still be represented.
    pub open spec fn can_add(self, seconds: int) -> bool {
        self.secs + seconds <= MAX_SECS
    }

    fn total_nanos(&self) -> (n: i128)
        ensures
            n == self.as_nanos(),
    {
        let whole: i128 = self.secs as i128 * 1_000_000_000;
        whole + self.nanos as i128
    }

    /// Whether `self` lies after `other`.
    pub fn is_after(&self, other: &UtcTime) -> (after: bool)
        ensures
            after == self.is_after_spec(*other),
    {
        self.total_nanos() > other.total_nanos()
    }

    /// Whether `self` lies a whole second or more after `now`.
    pub fn lasts_a_second_from(&self, now: &UtcTime) -> (lasts: bool)
        ensures
            lasts == self.at_least_a_second_after(*now),
    {
        self.total_nanos() - now.total_nanos() >= NANOS_PER_SEC as i128
    }
}

/// Calls `chrono::Utc::now` and takes the result apart with `timestamp` and
/// `timestamp_subsec_nanos`. Claimed of every reading: it is not before the Unix epoch, it can
/// be represented, and it lies outside of a leap second. `Utc::now` panics where the machine's
/// clock is set before the epoch or past the last date that can be represented. Which time it
/// is rests on the machine's clock and is left unsaid.
#[verifier::external_body]
pub(crate) fn utc_now() -> (now: UtcTime)
    ensures
        now.is_reading(),
{
    let now = Utc::now();
    UtcTime { secs: now.timestamp(), nanos: now.timestamp_subsec_nanos() }
}

/// Calls `chrono::DateTime::checked_add_signed` with a whole number of seconds. Claimed: the
/// sum is there exactly where it does not pass the last second that can be represented, and it
/// then lies that many seconds later with the same nanoseconds.
#[verifier::external_body]
pub(crate) fn checked_add_seconds(t: &UtcTime, seconds: u32) -> (sum: Option<UtcTime>)
    requires
        t.wf(),
    ensures
        sum is Some <==> t.can_add(seconds as int),
        sum matches Some(s) ==> s == t.plus(seconds as int),
{
    let start: DateTime<Utc> = DateTime::from_timestamp(t.secs, t.nanos)?;
    let sum = start.checked_add_signed(TimeDelta::seconds(seconds as i64))?;
    Some(UtcTime { secs: sum.timestamp(), nanos: sum.timestamp_subsec_nanos() })
}

/// A time that the machine's clock may show is one that `chrono` can represent, and not before
/// the Unix epoch.
pub proof fn lemma_reading_is_wf(t: UtcTime)
    requires
        t.is_reading(),
    ensures
        t.wf(),
        t.secs >= 0,
{
}

/// A time can be represented exactly where its second is one of those of `chrono` dates, and its
/// nanoseconds make no whole second; readings of the clock, where each of them can.
pub proof fn law_representable_times(t: UtcTime, clock: Clock)
    ensures
        t.wf() <==> -8_334_601_228_800 <= t.secs <= 8_210_266_876_799 && t.nanos < 1_000_000_000,
        clock.wf() <==> clock.cleanup.wf() && clock.now.wf() && clock.fallback.wf(),
{
}

/// A time lies after another exactly where it is in a later second or, in the same second, at a
/// later nanosecond; where nanoseconds may make whole seconds, where the nanoseconds between the
/// two are more than none.
pub proof fn law_later_time_is_after(t: UtcTime, other: UtcTime)
    ensures
        t.nanos < 1_000_000_000 && other.nanos < 1_000_000_000 ==> (t.is_after_spec(other) <==> (
        t.secs > other.secs || t.secs == other.secs && t.nanos > other.nanos)),
        t.is_after_spec(other) <==> 1_000_000_000 * (t.secs - other.secs) > other.nanos - t.nanos,
{
}

/// A time lies a whole second or more after `now` exactly where it is not before the same
/// nanosecond of the next second, however much later it is.
pub proof fn law_lasting_time_reaches_the_next_second(t: UtcTime, now: UtcTime)
    ensures
        t.nanos < 1_000_000_000 && now.nanos < 1_000_000_000 ==> (t.at_least_a_second_after(now)
            <==> (t.secs > now.secs + 1 || t.secs == now.secs + 1 && t.nanos >= now.nanos)),
        t.at_least_a_second_after(now) <==> 1_000_000_000 * (t.secs - now.secs - 1) >= now.nanos
            - t.nanos,
{
}

/// What lasts a second still does so where it ends later, or where it is looked at earlier; and
/// what lasts a second has not ended.
pub proof fn law_more_time_lasts_as_well(
    sooner: UtcTime,
    later: UtcTime,
    earlier_now: UtcTime,
    now: UtcTime,
)
    requires
        !sooner.is_after_spec(later),
        !earlier_now.is_after_spec(now),
        sooner.at_least_a_second_after(now),
    ensures
        later.at_least_a_second_after(earlier_now),
        later.is_after_spec(now),
{
}

/// The readings of the clock that one decision may consult, in the order in which they are
/// taken.
#[derive(Debug, Clone, Copy, PartialEq, Eq, Structural)]
pub struct Clock {
    /// What expired tokens are held against.
    pub cleanup: UtcTime,
    /// What the remaining life of a token is counted from.
    pub now: UtcTime,
    /// What the default life of a token is counted from, where its own cannot be represented.
    pub fallback: UtcTime,
}

impl Clock {
    /// The times are ones that `chrono` can represent.
    pub open spec fn wf(self) -> bool {
        &&& self.cleanup.wf()
        &&& self.now.wf()
        &&& self.fallback.wf()
    }

    /// The times are ones that the machine's clock may show.
    pub closed spec fn is_reading(self) -> bool {
        &&& self.cleanup.is_reading()
        &&& self.now.is_reading()
        &&& self.fallback.is_reading()
    }

    /// Reads the clock for each field in turn.
    pub fn read() -> (clock: Clock)
        ensures
            clock.is_reading(),
            clock.wf(),
    {
        let cleanup = utc_now();
        let now = utc_now();
        let fallback = utc_now();
        Clock { cleanup, now, fallback }
    }
}

/// Whether a time lies after another, and whether it lies a second or more after it, is answered
/// by their seconds and then by their nanoseconds.
pub proof fn law_times_are_compared_by_seconds_first(
    t: &UtcTime,
    other: &UtcTime,
    after: bool,
    lasts: bool,
)
    requires
        call_ensures(UtcTime::is_after, (t, other), after),
        call_ensures(UtcTime::lasts_a_second_from, (t, other), lasts),
        t.nanos < 1_000_000_000,
        other.nanos < 1_000_000_000,
    ensures
        after <==> t.secs > other.secs || t.secs == other.secs && t.nanos > other.nanos,
        lasts <==> t.secs > other.secs + 1 || t.secs == other.secs + 1 && t.nanos >= other.nanos,
{
}

} // verus!

//! Points in time on the UTC scale, and how a span moves them.

use vstd::prelude::*;

use crate::duration::TimeSpan;

verus! {

/// Seconds in a day.
pub const SECONDS_PER_DAY: i64 = 86_400;

/// Nanoseconds in a second.
pub const NANOS_PER_SECOND: u32 = 1_000_000_000;

/// The first day that can be told, 1 January of the year -262143, counted
/// in days from 1 January 1970.
pub const MIN_DAY: i32 = -96_465_292;

/// The last day that can be told, 31 December of the year 262142, counted
/// in days from 1 January 1970.
pub const MAX_DAY: i32 = 95_026_236;

/// The first second of [`MIN_DAY`].
pub const MIN_TIMESTAMP: i64 = -8_334_601_228_800;

/// The last second of [`MAX_DAY`].
pub const MAX_TIMESTAMP: i64 = 8_210_266_876_799;

/// A number of seconds that no instant can move and stay within the days
/// that can be told.
pub const OUT_OF_REACH: i128 = 0x1_0000_0000_0000_0000;

/// A point in time, anchored to UTC.
///
/// `seconds` counts the seconds since 1970-01-01T00:00:00Z, leap seconds
/// left out; `nanos` is the part of a second after that. Within a leap
/// second `seconds` stays at the second before it and `nanos` runs from one
/// to two thousand million. These are the values that `chrono` gives as
/// `timestamp` and `timestamp_subsec_nanos`.
#[derive(Clone, Copy, Debug, PartialEq, Eq, Structural)]
pub struct Instant {
    pub seconds: i64,
    pub nanos: u32,
}

/// A time of day without a date: the second of the day, and the nanoseconds
/// after it, one thousand million or more of them within a leap second.
#[derive(Clone, Copy, Debug, PartialEq, Eq, Structural)]
pub struct TimeOfDay {
    pub second: u32,
    pub nanos: u32,
}

impl TimeOfDay {
    /// The second lies within a day and the nanoseconds within two seconds.
    pub open spec fn is_valid(self) -> bool {
        self.second < SECONDS_PER_DAY && self.nanos < 2 * NANOS_PER_SECOND
    }
}

impl Instant {
    /// The instant lies within the days that can be told and its
    /// nanoseconds within two seconds.
    pub open spec fn is_valid(self) -> bool {
        MIN_TIMESTAMP <= self.seconds <= MAX_TIMESTAMP && self.nanos < 2 * NANOS_PER_SECOND
    }

    /// Whether the instant lies within a leap second.
    pub open spec fn in_leap_second(self) -> bool {
        self.nanos >= NANOS_PER_SECOND
    }

    /// The UTC calendar day of the instant, in days from 1 January 1970.
    pub open spec fn day(self) -> int {
        self.seconds as int / SECONDS_PER_DAY as int
    }

    /// The second of its UTC day at which the instant lies.
    pub open spec fn second_of_day(self) -> int {
        self.seconds as int % SECONDS_PER_DAY as int
    }

    /// The instant at `time` on the day `day`.
    pub open spec fn on_day(day: int, time: TimeOfDay) -> Instant {
        Instant { seconds: (day * SECONDS_PER_DAY + time.second) as i64, nanos: time.nanos }
    }

    /// The instant `by` seconds later, or earlier for a negative `by`;
    /// `None` where that lies beyond the days that can be told.
    ///
    /// Time is counted as if there were no leap seconds. An instant within
    /// a leap second is the exception: as soon as it moves it leaves the
    /// leap second. Forward it counts from the second before the leap
    /// second, so that one second later is as far into the second that
    /// follows; backward it counts from the second after, so that one
    /// second earlier is as far into the second before the leap second.
    /// This is how `chrono` adds a `TimeDelta` of whole seconds to a
    /// `DateTime`.
    pub open spec fn shifted(self, by: int) -> Option<Instant> {
        let leaves_leap_second = self.in_leap_second() && by != 0;
        let seconds = if leaves_leap_second && by < 0 {
            self.seconds + 1 + by
        } else {
            self.seconds + by
        };
        let nanos = if leaves_leap_second {
            self.nanos - NANOS_PER_SECOND
        } else {
            self.nanos as int
        };
        if MIN_TIMESTAMP <= seconds <= MAX_TIMESTAMP {
            Some(Instant { seconds: seconds as i64, nanos: nanos as u32 })
        } else {
            None
        }
    }

    /// The instant a span later.
    pub open spec fn plus(self, span: TimeSpan) -> Option<Instant> {
        self.shifted(span.seconds as int)
    }

    /// The instant a span earlier.
    pub open spec fn minus(self, span: TimeSpan) -> Option<Instant> {
        self.shifted(-(span.seconds as int))
    }

    /// The instant with these seconds and nanoseconds, if there is one.
    pub fn new(seconds: i64, nanos: u32) -> (instant: Option<Instant>)
        ensures
            instant == if (Instant { seconds, nanos }).is_valid() {
                Some(Instant { seconds, nanos })
            } else {
                None
            },
    {
        if MIN_TIMESTAMP <= seconds && seconds <= MAX_TIMESTAMP && nanos < 2 * NANOS_PER_SECOND {
            Some(Instant { seconds, nanos })
        } else {
            None
        }
    }

    /// The UTC calendar day of the instant, in days from 1 January 1970.
    pub fn epoch_day(&self) -> (day: i32)
        requires
            self.is_valid(),
        ensures
            day == self.day(),
            MIN_DAY <= day <= MAX_DAY,
    {
        let since_first: i64 = self.seconds - MIN_TIMESTAMP;
        MIN_DAY + (since_first / SECONDS_PER_DAY) as i32
    }

    /// The first instant of the day `day`.
    pub fn at_midnight(day: i32) -> (instant: Instant)
        requires
            MIN_DAY <= day <= MAX_DAY,
        ensures
            instant == Instant::on_day(day as int, TimeOfDay { second: 0, nanos: 0 }),
            instant.is_valid(),
            instant.day() == day,
            instant.second_of_day() == 0,
            instant.nanos == 0,
    {
        Instant { seconds: day as i64 * SECONDS_PER_DAY, nanos: 0 }
    }

    /// The instant at `time` on the UTC day of `self`.
    pub fn same_day_at(&self, time: TimeOfDay) -> (instant: Instant)
        requires
            self.is_valid(),
            time.is_valid(),
        ensures
            instant == Instant::on_day(self.day(), time),
            instant.is_valid(),
            instant.day() == self.day(),
            instant.second_of_day() == time.second,
            instant.nanos == time.nanos,
    {
        let day: i32 = self.epoch_day();
        Instant { seconds: day as i64 * SECONDS_PER_DAY + time.second as i64, nanos: time.nanos }
    }

    /// Moves the instant by `by` seconds.
    fn shift(self, by: i128) -> (moved: Option<Instant>)
        requires
            -OUT_OF_REACH <= by <= OUT_OF_REACH,
        ensures
            moved == self.shifted(by as int),
            self.is_valid() ==> (moved matches Some(instant) ==> instant.is_valid()),
    {
        let leaves_leap_second = self.nanos >= NANOS_PER_SECOND && by != 0;
        let seconds: i128 = if leaves_leap_second && by < 0 {
            self.seconds as i128 + 1 + by
        } else {
            self.seconds as i128 + by
        };
        let nanos: u32 = if leaves_leap_second {
            self.nanos - NANOS_PER_SECOND
        } else {
            self.nanos
        };
        if MIN_TIMESTAMP as i128 <= seconds && seconds <= MAX_TIMESTAMP as i128 {
            Some(Instant { seconds: seconds as i64, nanos })
        } else {
            None
        }
    }

    /// The instant `span` later, or `None` where that lies beyond the days
    /// that can be told.
    pub fn checked_add(self, span: TimeSpan) -> (later: Option<Instant>)
        ensures
            later == self.plus(span),
            self.is_valid() ==> (later matches Some(instant) ==> instant.is_valid()),
    {
        if span.seconds < -OUT_OF_REACH || span.seconds > OUT_OF_REACH {
            None
        } else {
            self.shift(span.seconds)
        }
    }

    /// The instant `span` earlier, or `None` where that lies beyond the days
    /// that can be told.
    pub fn checked_sub(self, span: TimeSpan) -> (earlier: Option<Instant>)
        ensures
            earlier == self.minus(span),
            self.is_valid() ==> (earlier matches Some(instant) ==> instant.is_valid()),
    {
        if span.seconds < -OUT_OF_REACH || span.seconds > OUT_OF_REACH {
            None
        } else {
            self.shift(-span.seconds)
        }
    }
}

/// Adding a span and subtracting it again gives the instant one started
/// from, and so does subtracting it and adding it again. An instant within
/// a leap second is left out, unless the span is empty: once moved it has
/// left the leap second for good.
pub proof fn lemma_add_and_subtract_are_inverse(instant: Instant, span: TimeSpan)
    requires
        instant.is_valid(),
        instant.in_leap_second() ==> span.seconds == 0,
    ensures
        instant.plus(span) matches Some(later) ==> later.minus(span) == Some(instant),
        instant.minus(span) matches Some(earlier) ==> earlier.plus(span) == Some(instant),
{
}

} // verus!

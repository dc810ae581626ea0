//! Points in time as they are written: the notations that are understood,
//! the order in which they are tried, and what each reading names.

use vstd::prelude::*;

use crate::error::ParseError;
use crate::instant::{Instant, TimeOfDay, MAX_DAY, MIN_DAY};
use crate::notation::{
    aware_format, aware_format_at, is_naive_format, naive_format, naive_format_at, AWARE_FORMATS,
    NAIVE_FORMATS,
};
use crate::trusted::{
    naive_date_reading, naive_datetime_reading, naive_time_reading, offset_datetime_reading,
    read_clock, read_naive_date, read_naive_datetime, read_naive_time, read_offset_datetime,
    read_rfc2822, read_rfc3339, rfc2822_reading, rfc3339_reading,
};
use crate::text::{chars_of, text_eq};

verus! {

/// What a text was read as, before the clock is asked.
#[derive(Clone, Copy, Debug, PartialEq, Eq, Structural)]
pub enum Reading {
    /// The word `now`.
    Now,
    /// A date and a time, held as the instant they name in UTC.
    Full(Instant),
    /// A date alone, in days from 1 January 1970.
    DateOnly(i32),
    /// A time of day alone.
    TimeOnly(TimeOfDay),
}

impl Reading {
    /// What was read lies within the days and times that can be told.
    pub open spec fn is_valid(self) -> bool {
        match self {
            Reading::Now => true,
            Reading::Full(instant) => instant.is_valid(),
            Reading::DateOnly(day) => MIN_DAY <= day <= MAX_DAY,
            Reading::TimeOnly(time) => time.is_valid(),
        }
    }

    /// Whether what the reading names depends on the time at which it is
    /// asked: the word `now` does, and so does a time without a date.
    pub open spec fn depends_on_clock(self) -> bool {
        self is Now || self is TimeOnly
    }

    /// The instant that the reading names at the time `now`: the word `now`
    /// names `now`, a date and a time name themselves, a date alone names
    /// its midnight, and a time alone names that time on the UTC day of
    /// `now`.
    pub open spec fn anchored(self, now: Instant) -> Instant {
        match self {
            Reading::Now => now,
            Reading::Full(instant) => instant,
            Reading::DateOnly(day) => Instant::on_day(
                day as int,
                TimeOfDay { second: 0, nanos: 0 },
            ),
            Reading::TimeOnly(time) => Instant::on_day(now.day(), time),
        }
    }

    /// The instant that the reading names at the time `now`.
    pub fn anchor(self, now: Instant) -> (instant: Instant)
        requires
            self.is_valid(),
            now.is_valid(),
        ensures
            instant == self.anchored(now),
            instant.is_valid(),
            self matches Reading::DateOnly(day) ==> instant.day() == day
                && instant.second_of_day() == 0 && instant.nanos == 0,
            self matches Reading::TimeOnly(time) ==> instant.day() == now.day()
                && instant.second_of_day() == time.second && instant.nanos == time.nanos,
    {
        match self {
            Reading::Now => now,
            Reading::Full(instant) => instant,
            Reading::DateOnly(day) => Instant::at_midnight(day),
            Reading::TimeOnly(time) => now.same_day_at(time),
        }
    }

    /// The instant that the reading names whatever the time, if it names
    /// one.
    pub fn timeless(self) -> (instant: Option<Instant>)
        requires
            self.is_valid(),
        ensures
            instant is None <==> self.depends_on_clock(),
            instant matches Some(i) ==> i.is_valid() && forall|now: Instant|
                i == #[trigger] self.anchored(now),
    {
        match self {
            Reading::Now => None,
            Reading::Full(instant) => Some(instant),
            Reading::DateOnly(day) => Some(Instant::at_midnight(day)),
            Reading::TimeOnly(_) => None,
        }
    }
}

/// What `text` is read as under one notation without an offset: as a date
/// and a time if it can be, else as a date alone, else as a time alone.
pub open spec fn naive_reading(text: Seq<char>, format: Seq<char>) -> Option<Reading> {
    match naive_datetime_reading(text, format) {
        Some(instant) => Some(Reading::Full(instant)),
        None => match naive_date_reading(text, format) {
            Some(day) => Some(Reading::DateOnly(day)),
            None => match naive_time_reading(text, format) {
                Some(time) => Some(Reading::TimeOnly(time)),
                None => None,
            },
        },
    }
}

/// What `text` is read as under the first notation without an offset, from
/// the `k`-th on, under which it can be read at all.
pub open spec fn first_naive_reading(text: Seq<char>, k: int) -> Option<Reading>
    decreases NAIVE_FORMATS - k,
{
    if k < 0 || k >= NAIVE_FORMATS {
        None
    } else {
        match naive_reading(text, naive_format(k)) {
            Some(reading) => Some(reading),
            None => first_naive_reading(text, k + 1),
        }
    }
}

/// The instant that `text` names under the first notation with an offset,
/// from the `k`-th on, under which it can be read.
pub open spec fn first_aware_reading(text: Seq<char>, k: int) -> Option<Instant>
    decreases AWARE_FORMATS - k,
{
    if k < 0 || k >= AWARE_FORMATS {
        None
    } else {
        match offset_datetime_reading(text, aware_format(k)) {
            Some(instant) => Some(instant),
            None => first_aware_reading(text, k + 1),
        }
    }
}

/// `text` with a period for every comma, so that a fraction of a second
/// may be written either way.
pub open spec fn normalized(text: Seq<char>) -> Seq<char> {
    text.map_values(|c: char| if c == ',' { '.' } else { c })
}

/// The instant that `text` names as a date of electronic mail or, failing
/// that, as an Internet timestamp.
pub open spec fn wire_reading(text: Seq<char>) -> Option<Instant> {
    match rfc2822_reading(text) {
        Some(instant) => Some(instant),
        None => rfc3339_reading(text),
    }
}

/// What `text` is read as.
///
/// The word `now` is itself. Any other text is tried under the notations
/// without an offset, then, with periods for its commas, under those with
/// an offset, then as a date of electronic mail and as an Internet
/// timestamp; the first that reads it decides.
pub open spec fn reading_of(text: Seq<char>) -> Result<Reading, ParseError> {
    if text == "now"@ {
        Ok(Reading::Now)
    } else {
        match first_naive_reading(text, 0) {
            Some(reading) => Ok(reading),
            None => match first_aware_reading(normalized(text), 0) {
                Some(instant) => Ok(Reading::Full(instant)),
                None => match wire_reading(text) {
                    Some(instant) => Ok(Reading::Full(instant)),
                    None => Err(ParseError::InvalidDatetimeFormat),
                },
            },
        }
    }
}

/// The instant that `text` names at the time `now`.
pub open spec fn datetime_of(text: Seq<char>, now: Instant) -> Result<Instant, ParseError> {
    match reading_of(text) {
        Ok(reading) => Ok(reading.anchored(now)),
        Err(error) => Err(error),
    }
}

/// Whether what `text` names depends on the time at which it is read.
pub open spec fn depends_on_clock(text: Seq<char>) -> bool {
    reading_of(text) matches Ok(reading) && reading.depends_on_clock()
}

/// A text is read under the first notation without an offset that reads
/// it: where none before the `k`-th does and the `k`-th does, that reading
/// is the result, whatever the later notations would make of the text.
pub proof fn lemma_first_naive_format_decides(text: Seq<char>, k: int)
    requires
        text != "now"@,
        0 <= k < NAIVE_FORMATS,
        forall|j: int| 0 <= j < k ==> naive_reading(text, #[trigger] naive_format(j)) is None,
        naive_reading(text, naive_format(k)) is Some,
    ensures
        reading_of(text) == Ok::<Reading, ParseError>(
            naive_reading(text, naive_format(k)).unwrap(),
        ),
{
    lemma_naive_formats_skipped(text, k, 0);
}

proof fn lemma_naive_formats_skipped(text: Seq<char>, k: int, from: int)
    requires
        0 <= from <= k < NAIVE_FORMATS,
        forall|j: int| 0 <= j < k ==> naive_reading(text, #[trigger] naive_format(j)) is None,
    ensures
        first_naive_reading(text, from) == first_naive_reading(text, k),
    decreases k - from,
{
    if from < k {
        lemma_naive_formats_skipped(text, k, from + 1);
    }
}

/// A date and a time written without an offset name the instant at which
/// a clock in UTC shows them: where the `k`-th notation reads `text` so and
/// none before it reads `text` at all, the text is accepted and names
/// exactly what was read, at whatever time.
pub proof fn lemma_naive_datetime_is_kept(text: Seq<char>, now: Instant, k: int)
    requires
        text != "now"@,
        0 <= k < NAIVE_FORMATS,
        forall|j: int| 0 <= j < k ==> naive_reading(text, #[trigger] naive_format(j)) is None,
        naive_datetime_reading(text, naive_format(k)) is Some,
    ensures
        datetime_of(text, now) == Ok::<Instant, ParseError>(
            naive_datetime_reading(text, naive_format(k)).unwrap(),
        ),
{
    lemma_first_naive_format_decides(text, k);
}

/// A date written alone names the first instant of that day: where `text`
/// is read as a date alone, it names midnight, to the nanosecond, on the
/// day that was read.
pub proof fn lemma_date_alone_names_midnight(text: Seq<char>, now: Instant, day: i32)
    requires
        reading_of(text) == Ok::<Reading, ParseError>(Reading::DateOnly(day)),
    ensures
        datetime_of(text, now) matches Ok(instant) && instant.day() == day
            && instant.second_of_day() == 0 && instant.nanos == 0,
{
}

/// A time written alone names that time on the day that it is in UTC when
/// the text is read: where `text` is read as a time of day alone, it names
/// that time on the UTC day of `now`.
pub proof fn lemma_time_alone_names_today(text: Seq<char>, now: Instant, time: TimeOfDay)
    requires
        now.is_valid(),
        time.is_valid(),
        reading_of(text) == Ok::<Reading, ParseError>(Reading::TimeOnly(time)),
    ensures
        datetime_of(text, now) matches Ok(instant) && instant.day() == now.day()
            && instant.second_of_day() == time.second && instant.nanos == time.nanos,
{
}

/// `input` with a period for every comma.
pub fn normalize(input: &str) -> (text: String)
    ensures
        text@ == normalized(input@),
{
    let chars = chars_of(input);
    let mut text = String::new();
    let mut i: usize = 0;
    while i < chars.len()
        invariant
            i <= chars.len(),
            chars@ == input@,
            text@ == normalized(input@.subrange(0, i as int)),
        decreases chars.len() - i,
    {
        proof {
            reveal_strlit(".");
        }
        if chars[i] == ',' {
            text.append(".");
        } else {
            text.append(input.substring_char(i, i + 1));
        }
        i += 1;
    }
    text
}

/// Reads `input` under one notation without an offset.
fn read_naive(input: &str, format: &str) -> (reading: Option<Reading>)
    requires
        is_naive_format(format@),
    ensures
        reading == naive_reading(input@, format@),
        reading matches Some(r) ==> r.is_valid(),
{
    match read_naive_datetime(input, format) {
        Some(instant) => Some(Reading::Full(instant)),
        None => match read_naive_date(input, format) {
            Some(day) => Some(Reading::DateOnly(day)),
            None => match read_naive_time(input, format) {
                Some(time) => Some(Reading::TimeOnly(time)),
                None => None,
            },
        },
    }
}

/// Reads `input` under the notations without an offset, in their order.
fn read_first_naive(input: &str) -> (reading: Option<Reading>)
    ensures
        reading == first_naive_reading(input@, 0),
        reading matches Some(r) ==> r.is_valid(),
{
    let mut k: usize = 0;
    while k < NAIVE_FORMATS
        invariant
            k <= NAIVE_FORMATS,
            first_naive_reading(input@, 0) == first_naive_reading(input@, k as int),
        decreases NAIVE_FORMATS - k,
    {
        match read_naive(input, naive_format_at(k)) {
            Some(reading) => {
                return Some(reading);
            },
            None => {},
        }
        k += 1;
    }
    None
}

/// Reads `text` under the notations with an offset, in their order.
fn read_first_aware(text: &str) -> (reading: Option<Instant>)
    ensures
        reading == first_aware_reading(text@, 0),
        reading matches Some(instant) ==> instant.is_valid(),
{
    let mut k: usize = 0;
    while k < AWARE_FORMATS
        invariant
            k <= AWARE_FORMATS,
            first_aware_reading(text@, 0) == first_aware_reading(text@, k as int),
        decreases AWARE_FORMATS - k,
    {
        match read_offset_datetime(text, aware_format_at(k)) {
            Some(instant) => {
                return Some(instant);
            },
            None => {},
        }
        k += 1;
    }
    None
}

/// Reads `input` as a date of electronic mail or, failing that, as an
/// Internet timestamp.
fn read_wire(input: &str) -> (reading: Option<Instant>)
    ensures
        reading == wire_reading(input@),
        reading matches Some(instant) ==> instant.is_valid(),
{
    match read_rfc2822(input) {
        Some(instant) => Some(instant),
        None => read_rfc3339(input),
    }
}

/// Reads a point in time without asking the clock.
pub fn read_datetime(input: &str) -> (reading: Result<Reading, ParseError>)
    ensures
        reading == reading_of(input@),
        reading matches Ok(r) ==> r.is_valid(),
{
    if text_eq(input, "now") {
        return Ok(Reading::Now);
    }
    if let Some(reading) = read_first_naive(input) {
        return Ok(reading);
    }
    let normal = normalize(input);
    if let Some(instant) = read_first_aware(normal.as_str()) {
        return Ok(Reading::Full(instant));
    }
    match read_wire(input) {
        Some(instant) => Ok(Reading::Full(instant)),
        None => Err(ParseError::InvalidDatetimeFormat),
    }
}

/// Reads a point in time as it would be read at the time `now`.
///
/// `now` stands for the clock: it is what the word `now` names, and its UTC
/// day is the day of a time written without a date.
pub fn parse_datetime_at(input: &str, now: Instant) -> (instant: Result<Instant, ParseError>)
    requires
        now.is_valid(),
    ensures
        instant == datetime_of(input@, now),
        instant matches Ok(i) ==> i.is_valid(),
{
    match read_datetime(input) {
        Ok(reading) => Ok(reading.anchor(now)),
        Err(error) => Err(error),
    }
}

/// Reads a point in time, such as `2023-11-10 12:34:56`, `2023-11-10`,
/// `12:34`, `2023-11-10T12:34:56+0100` or `now`.
///
/// The clock is read only for the word `now` and for a time without a
/// date. What the text names is what it names at some valid time; where it
/// does not depend on the clock, that is said outright.
pub fn parse_datetime(input: &str) -> (instant: Result<Instant, ParseError>)
    ensures
        exists|now: Instant| now.is_valid() && instant == datetime_of(input@, now),
        !depends_on_clock(input@) ==> forall|now: Instant|
            instant == #[trigger] datetime_of(input@, now),
        instant is Ok <==> reading_of(input@) is Ok,
        instant matches Ok(i) ==> i.is_valid(),
{
    let ghost epoch = Instant { seconds: 0, nanos: 0 };
    assert(epoch.is_valid());
    let reading = match read_datetime(input) {
        Ok(reading) => reading,
        Err(error) => return Err(error),
    };
    match reading.timeless() {
        Some(instant) => Ok(instant),
        None => Ok(reading.anchor(read_clock())),
    }
}

} // verus!

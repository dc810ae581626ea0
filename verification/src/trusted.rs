//! What is taken from `chrono` on trust: how it reads the supported
//! notations, and the clock.
//!
//! Nothing in this file is proved. Each function below makes one call into
//! `chrono` and hands the outcome on as plain values; its contract is what
//! the rest of the library believes of that call. What `chrono` makes of a
//! text under a format is not spelled out: each reading has a name, and the
//! contracts of the library say which reading is returned when.

use chrono::{DateTime, NaiveDate, NaiveDateTime, NaiveTime, Timelike, Utc};
use vstd::prelude::*;

use crate::instant::{Instant, TimeOfDay, MAX_DAY, MIN_DAY};
use crate::notation::{is_aware_format, is_naive_format};

verus! {

/// The datetime that `chrono::NaiveDateTime::parse_from_str` reads from
/// `text` under `format`, taken as UTC; `None` where it reports an error.
pub uninterp spec fn naive_datetime_reading(text: Seq<char>, format: Seq<char>) -> Option<Instant>;

/// The date that `chrono::NaiveDate::parse_from_str` reads from `text`
/// under `format`, in days from 1 January 1970; `None` where it reports an
/// error.
pub uninterp spec fn naive_date_reading(text: Seq<char>, format: Seq<char>) -> Option<i32>;

/// The time of day that `chrono::NaiveTime::parse_from_str` reads from
/// `text` under `format`; `None` where it reports an error.
pub uninterp spec fn naive_time_reading(text: Seq<char>, format: Seq<char>) -> Option<TimeOfDay>;

/// The instant that `chrono::DateTime::parse_from_str` reads from `text`
/// under `format`, the offset written in the text applied; `None` where it
/// reports an error.
pub uninterp spec fn offset_datetime_reading(text: Seq<char>, format: Seq<char>) -> Option<Instant>;

/// The instant that `chrono::DateTime::parse_from_rfc2822` reads from
/// `text`; `None` where it reports an error.
pub uninterp spec fn rfc2822_reading(text: Seq<char>) -> Option<Instant>;

/// The instant that `chrono::DateTime::parse_from_rfc3339` reads from
/// `text`; `None` where it reports an error.
pub uninterp spec fn rfc3339_reading(text: Seq<char>) -> Option<Instant>;

/// Calls `chrono::NaiveDateTime::parse_from_str` and takes the datetime it
/// reads as UTC.
///
/// Trusted: under the notations of this library the call returns, and its
/// outcome depends on the two texts alone; a datetime of `chrono` lies
/// within the days from [`MIN_DAY`] to [`MAX_DAY`], with less than two
/// thousand million nanoseconds.
#[verifier::external_body]
pub(crate) fn read_naive_datetime(text: &str, format: &str) -> (reading: Option<Instant>)
    requires
        is_naive_format(format@),
    ensures
        reading == naive_datetime_reading(text@, format@),
        reading matches Some(instant) ==> instant.is_valid(),
{
    match NaiveDateTime::parse_from_str(text, format) {
        Ok(naive) => {
            let utc = naive.and_utc();
            Some(Instant { seconds: utc.timestamp(), nanos: utc.timestamp_subsec_nanos() })
        },
        Err(_) => None,
    }
}

/// Calls `chrono::NaiveDate::parse_from_str` and counts the days of the
/// date it reads from 1 January 1970.
///
/// Trusted: under the notations of this library the call returns, and its
/// outcome depends on the two texts alone; a date of `chrono` lies within
/// the days from [`MIN_DAY`] to [`MAX_DAY`].
#[verifier::external_body]
pub(crate) fn read_naive_date(text: &str, format: &str) -> (reading: Option<i32>)
    requires
        is_naive_format(format@),
    ensures
        reading == naive_date_reading(text@, format@),
        reading matches Some(day) ==> MIN_DAY <= day <= MAX_DAY,
{
    match NaiveDate::parse_from_str(text, format) {
        Ok(date) => Some(date.to_epoch_days()),
        Err(_) => None,
    }
}

/// Calls `chrono::NaiveTime::parse_from_str`.
///
/// Trusted: under the notations of this library the call returns, and its
/// outcome depends on the two texts alone; a time of day of `chrono` has
/// less than 86400 seconds and less than two thousand million nanoseconds.
#[verifier::external_body]
pub(crate) fn read_naive_time(text: &str, format: &str) -> (reading: Option<TimeOfDay>)
    requires
        is_naive_format(format@),
    ensures
        reading == naive_time_reading(text@, format@),
        reading matches Some(time) ==> time.is_valid(),
{
    match NaiveTime::parse_from_str(text, format) {
        Ok(time) => Some(
            TimeOfDay { second: time.num_seconds_from_midnight(), nanos: time.nanosecond() },
        ),
        Err(_) => None,
    }
}

/// Calls `chrono::DateTime::parse_from_str` and brings the datetime it
/// reads to UTC.
///
/// Trusted: under the notations of this library the call returns, and its
/// outcome depends on the two texts alone; a datetime of `chrono` lies, in
/// UTC, within the days from [`MIN_DAY`] to [`MAX_DAY`], with less than two
/// thousand million nanoseconds.
#[verifier::external_body]
pub(crate) fn read_offset_datetime(text: &str, format: &str) -> (reading: Option<Instant>)
    requires
        is_aware_format(format@),
    ensures
        reading == offset_datetime_reading(text@, format@),
        reading matches Some(instant) ==> instant.is_valid(),
{
    match DateTime::parse_from_str(text, format) {
        Ok(aware) => {
            let utc = aware.with_timezone(&Utc);
            Some(Instant { seconds: utc.timestamp(), nanos: utc.timestamp_subsec_nanos() })
        },
        Err(_) => None,
    }
}

/// Calls `chrono::DateTime::parse_from_rfc2822` and brings the datetime it
/// reads to UTC.
///
/// Trusted: the call returns, and its outcome depends on the text alone
/// and is a datetime of `chrono` as above.
#[verifier::external_body]
pub(crate) fn read_rfc2822(text: &str) -> (reading: Option<Instant>)
    ensures
        reading == rfc2822_reading(text@),
        reading matches Some(instant) ==> instant.is_valid(),
{
    match DateTime::parse_from_rfc2822(text) {
        Ok(aware) => {
            let utc = aware.with_timezone(&Utc);
            Some(Instant { seconds: utc.timestamp(), nanos: utc.timestamp_subsec_nanos() })
        },
        Err(_) => None,
    }
}

/// Calls `chrono::DateTime::parse_from_rfc3339` and brings the datetime it
/// reads to UTC.
///
/// Trusted: the call returns, and its outcome depends on the text alone
/// and is a datetime of `chrono` as above.
#[verifier::external_body]
pub(crate) fn read_rfc3339(text: &str) -> (reading: Option<Instant>)
    ensures
        reading == rfc3339_reading(text@),
        reading matches Some(instant) ==> instant.is_valid(),
{
    match DateTime::parse_from_rfc3339(text) {
        Ok(aware) => {
            let utc = aware.with_timezone(&Utc);
            Some(Instant { seconds: utc.timestamp(), nanos: utc.timestamp_subsec_nanos() })
        },
        Err(_) => None,
    }
}

/// Reads the clock with `chrono::Utc::now`.
///
/// Trusted: whatever the clock shows, it is a datetime of `chrono` as
/// above. `chrono` panics where the clock stands before 1970.
#[verifier::external_body]
pub(crate) fn read_clock() -> (now: Instant)
    ensures
        now.is_valid(),
{
    let utc = Utc::now();
    Instant { seconds: utc.timestamp(), nanos: utc.timestamp_subsec_nanos() }
}

} // verus!

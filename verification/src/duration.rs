//! Durations written as a signed integer and a unit letter.

use vstd::prelude::*;

use crate::error::ParseError;
use crate::number::{decimal_text, lemma_decimal_text_reads_back, parse_integer, signed_integer};
use crate::text::{chars_of, is_whitespace, lemma_trimmed_unchanged, trim_bounds, trimmed};

verus! {

/// A signed span of time of fixed length, in whole seconds.
#[derive(Clone, Copy, Debug, PartialEq, Eq, Structural)]
pub struct TimeSpan {
    pub seconds: i128,
}

/// How many seconds the unit written `unit` lasts: `s` a second, `m` a
/// minute, `h` an hour, `d` a day, `w` a week of seven days.
pub open spec fn unit_seconds(unit: char) -> Option<int> {
    if unit == 's' {
        Some(1)
    } else if unit == 'm' {
        Some(60)
    } else if unit == 'h' {
        Some(3_600)
    } else if unit == 'd' {
        Some(86_400)
    } else if unit == 'w' {
        Some(604_800)
    } else {
        None
    }
}

/// The span that `text` denotes, or why it denotes none.
///
/// Whitespace around the text does not count. What is left is a signed
/// integer followed by one unit letter, and denotes that many units.
pub open spec fn duration_of(text: Seq<char>) -> Result<TimeSpan, ParseError> {
    let token = trimmed(text);
    if token.len() < 2 {
        Err(ParseError::InvalidDurationFormat)
    } else {
        match signed_integer(token.drop_last()) {
            None => Err(ParseError::InvalidDurationNumber),
            Some(count) => match unit_seconds(token.last()) {
                None => Err(ParseError::InvalidDurationUnit),
                Some(length) => Ok(TimeSpan { seconds: (count * length) as i128 }),
            },
        }
    }
}

/// How a count of units is written: the number, then the unit letter.
pub open spec fn duration_text(count: int, unit: char) -> Seq<char> {
    decimal_text(count).push(unit)
}

/// Writing a count of units out and reading it back gives that count times
/// the length of the unit, for every 64-bit count and every unit.
pub proof fn lemma_written_duration_reads_back(count: int, unit: char)
    requires
        i64::MIN <= count <= i64::MAX,
        unit_seconds(unit) is Some,
    ensures
        duration_of(duration_text(count, unit)) == Ok::<TimeSpan, ParseError>(
            (TimeSpan { seconds: (count * unit_seconds(unit).unwrap()) as i128 }),
        ),
        i128::MIN <= count * unit_seconds(unit).unwrap() <= i128::MAX,
{
    let number = decimal_text(count);
    let text = duration_text(count, unit);
    lemma_decimal_text_reads_back(count);
    assert(!is_whitespace('-') && !is_whitespace(unit));
    lemma_trimmed_unchanged(text);
    assert(text.drop_last() =~= number);
}

/// A duration is refused for exactly one of three reasons, each with its
/// own error, and is read otherwise.
pub proof fn lemma_duration_errors(text: Seq<char>)
    ensures
        duration_of(text) == Err::<TimeSpan, ParseError>(ParseError::InvalidDurationFormat)
            <==> trimmed(text).len() < 2,
        duration_of(text) == Err::<TimeSpan, ParseError>(ParseError::InvalidDurationNumber)
            <==> trimmed(text).len() >= 2 && signed_integer(trimmed(text).drop_last()) is None,
        duration_of(text) == Err::<TimeSpan, ParseError>(ParseError::InvalidDurationUnit)
            <==> trimmed(text).len() >= 2 && signed_integer(trimmed(text).drop_last()) is Some
            && unit_seconds(trimmed(text).last()) is None,
        duration_of(text) is Ok <==> trimmed(text).len() >= 2 && signed_integer(
            trimmed(text).drop_last(),
        ) is Some && unit_seconds(trimmed(text).last()) is Some,
{
}

/// The length in seconds of the unit written `unit`.
pub fn unit_length(unit: char) -> (length: Option<i64>)
    ensures
        match length {
            Some(l) => unit_seconds(unit) == Some(l as int),
            None => unit_seconds(unit) is None,
        },
{
    if unit == 's' {
        Some(1)
    } else if unit == 'm' {
        Some(60)
    } else if unit == 'h' {
        Some(3_600)
    } else if unit == 'd' {
        Some(86_400)
    } else if unit == 'w' {
        Some(604_800)
    } else {
        None
    }
}

/// Reads a duration such as `3d`, `-2h` or `1w`.
pub fn parse_duration(input: &str) -> (span: Result<TimeSpan, ParseError>)
    ensures
        span == duration_of(input@),
{
    let chars = chars_of(input);
    let (start, end) = trim_bounds(&chars);
    if end - start < 2 {
        return Err(ParseError::InvalidDurationFormat);
    }
    let ghost token = chars@.subrange(start as int, end as int);
    assert(token.drop_last() =~= chars@.subrange(start as int, end as int - 1));
    let count: i64 = match parse_integer(&chars, start, end - 1) {
        Some(count) => count,
        None => return Err(ParseError::InvalidDurationNumber),
    };
    let length: i64 = match unit_length(chars[end - 1]) {
        Some(length) => length,
        None => return Err(ParseError::InvalidDurationUnit),
    };
    assert(-0x8000_0000_0000_0000 * 604_800 <= count * length <= 0x8000_0000_0000_0000 * 604_800)
        by (nonlinear_arith)
        requires
            -0x8000_0000_0000_0000 <= count <= 0x8000_0000_0000_0000,
            0 < length <= 604_800,
    ;
    Ok(TimeSpan { seconds: count as i128 * length as i128 })
}

} // verus!

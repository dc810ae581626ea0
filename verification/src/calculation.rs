//! From the words on the command line to the instant that is asked for.

use vstd::prelude::*;

use crate::datetime::{datetime_of, depends_on_clock, parse_datetime, parse_datetime_at};
use crate::duration::{duration_of, parse_duration, TimeSpan};
use crate::error::ParseError;
use crate::instant::Instant;
use crate::trusted::read_clock;
use crate::text::text_eq;

verus! {

/// What to do with the span.
#[derive(Clone, Copy, Debug, PartialEq, Eq, Structural)]
pub enum Operator {
    /// Move the instant forward by the span.
    Add,
    /// Move the instant back by the span.
    Subtract,
    /// Leave the instant as it is.
    Nothing,
}

/// A request that has been understood: an instant, and what to do with it.
#[derive(Clone, Copy, Debug, PartialEq, Eq, Structural)]
pub struct Calculation {
    /// The instant to start from.
    pub base: Instant,
    /// Whether to add, to subtract or to do neither.
    pub operator: Operator,
    /// The span to add or subtract; none where there is nothing to do.
    pub span: Option<TimeSpan>,
}

impl Calculation {
    /// The instant can be told, and there is a span exactly where there is
    /// something to do with it.
    pub open spec fn is_valid(self) -> bool {
        self.base.is_valid() && (self.operator is Nothing <==> self.span is None)
    }

    /// The instant that is asked for; `None` where it lies beyond the days
    /// that can be told.
    pub open spec fn outcome(self) -> Option<Instant> {
        match (self.operator, self.span) {
            (Operator::Add, Some(span)) => self.base.plus(span),
            (Operator::Subtract, Some(span)) => self.base.minus(span),
            _ => Some(self.base),
        }
    }

    /// Works out the instant that is asked for.
    pub fn result(&self) -> (instant: Option<Instant>)
        ensures
            instant == self.outcome(),
            self.is_valid() ==> (instant matches Some(i) ==> i.is_valid()),
    {
        match (self.operator, self.span) {
            (Operator::Add, Some(span)) => self.base.checked_add(span),
            (Operator::Subtract, Some(span)) => self.base.checked_sub(span),
            _ => Some(self.base),
        }
    }
}

/// The characters of a word that may be missing.
pub open spec fn word(token: Option<&str>) -> Option<Seq<char>> {
    match token {
        Some(text) => Some(text@),
        None => None,
    }
}

/// The operator that a word names: `+` adds, `-` subtracts, no word at all
/// asks for nothing, and any other word is refused.
pub open spec fn operator_of(token: Option<Seq<char>>) -> Result<Operator, ParseError> {
    match token {
        None => Ok(Operator::Nothing),
        Some(text) => if text == "+"@ {
            Ok(Operator::Add)
        } else if text == "-"@ {
            Ok(Operator::Subtract)
        } else {
            Err(ParseError::InvalidOperator)
        },
    }
}

/// What is asked for, given the instant to start from or the reason why
/// there is none, and the words for the operator and the span.
///
/// With an operator the last word must be there and name a span; without
/// one it is not looked at. The instant is judged first, then the
/// operator, then the span, and the first that is refused gives the error.
pub open spec fn calculation_from(
    base: Result<Instant, ParseError>,
    operator: Option<Seq<char>>,
    duration: Option<Seq<char>>,
) -> Result<Calculation, ParseError> {
    match (base, operator_of(operator)) {
        (Err(error), _) => Err(error),
        (Ok(_), Err(error)) => Err(error),
        (Ok(base), Ok(Operator::Nothing)) => Ok(
            Calculation { base, operator: Operator::Nothing, span: None },
        ),
        (Ok(base), Ok(operator)) => match duration {
            None => Err(ParseError::MissingDuration),
            Some(text) => match duration_of(text) {
                Err(error) => Err(error),
                Ok(span) => Ok(Calculation { base, operator, span: Some(span) }),
            },
        },
    }
}

/// The instant to start from at the time `now`: the one that the word
/// names, or `now` itself where the word is missing.
pub open spec fn base_of(datetime: Option<Seq<char>>, now: Instant) -> Result<
    Instant,
    ParseError,
> {
    match datetime {
        Some(text) => datetime_of(text, now),
        None => Ok(now),
    }
}

/// What three words ask for at the time `now`: the first names the instant
/// to start from, the second the operator, the third the span.
pub open spec fn calculation_of(
    datetime: Option<Seq<char>>,
    operator: Option<Seq<char>>,
    duration: Option<Seq<char>>,
    now: Instant,
) -> Result<Calculation, ParseError> {
    calculation_from(base_of(datetime, now), operator, duration)
}

/// Whether what the three words ask for depends on the time at which they
/// are read: it does where the first word is missing, and where that word
/// names a time that depends on it.
pub open spec fn request_depends_on_clock(datetime: Option<Seq<char>>) -> bool {
    match datetime {
        Some(text) => depends_on_clock(text),
        None => true,
    }
}

/// Reads the operator.
pub fn parse_operator(token: Option<&str>) -> (operator: Result<Operator, ParseError>)
    ensures
        operator == operator_of(word(token)),
{
    match token {
        None => Ok(Operator::Nothing),
        Some(text) => if text_eq(text, "+") {
            Ok(Operator::Add)
        } else if text_eq(text, "-") {
            Ok(Operator::Subtract)
        } else {
            Err(ParseError::InvalidOperator)
        },
    }
}

/// Puts a request together from the instant to start from, or the reason
/// why there is none, and the words for the operator and the span.
pub fn complete(
    base: Result<Instant, ParseError>,
    operator: Option<&str>,
    duration: Option<&str>,
) -> (calculation: Result<Calculation, ParseError>)
    ensures
        calculation == calculation_from(base, word(operator), word(duration)),
{
    let base = match base {
        Ok(base) => base,
        Err(error) => return Err(error),
    };
    let operator = match parse_operator(operator) {
        Ok(operator) => operator,
        Err(error) => return Err(error),
    };
    if let Operator::Nothing = operator {
        return Ok(Calculation { base, operator, span: None });
    }
    match duration {
        None => Err(ParseError::MissingDuration),
        Some(text) => match parse_duration(text) {
            Err(error) => Err(error),
            Ok(span) => Ok(Calculation { base, operator, span: Some(span) }),
        },
    }
}

/// Reads the three words of a request as they would be read at the time
/// `now`.
pub fn resolve_at(
    datetime: Option<&str>,
    operator: Option<&str>,
    duration: Option<&str>,
    now: Instant,
) -> (calculation: Result<Calculation, ParseError>)
    requires
        now.is_valid(),
    ensures
        calculation == calculation_of(word(datetime), word(operator), word(duration), now),
        calculation matches Ok(c) ==> c.is_valid(),
{
    let base = match datetime {
        Some(text) => parse_datetime_at(text, now),
        None => Ok(now),
    };
    complete(base, operator, duration)
}

/// Reads the three words of a request.
///
/// The clock is read where the first word is missing or names a time that
/// depends on it. What the words ask for is what they ask for at some valid
/// time; where that does not depend on the clock, it is said outright.
pub fn resolve(datetime: Option<&str>, operator: Option<&str>, duration: Option<&str>) -> (calculation:
    Result<Calculation, ParseError>)
    ensures
        exists|now: Instant|
            now.is_valid() && calculation == calculation_of(
                word(datetime),
                word(operator),
                word(duration),
                now,
            ),
        !request_depends_on_clock(word(datetime)) ==> forall|now: Instant|
            calculation == #[trigger] calculation_of(
                word(datetime),
                word(operator),
                word(duration),
                now,
            ),
        calculation matches Ok(c) ==> c.is_valid(),
{
    let base = match datetime {
        Some(text) => parse_datetime(text),
        None => Ok(read_clock()),
    };
    complete(base, operator, duration)
}

} // verus!

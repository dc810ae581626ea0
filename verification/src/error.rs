use vstd::prelude::*;

verus! {

/// Why an expression was refused.
#[derive(Clone, Copy, Debug, PartialEq, Eq, Structural)]
pub enum ParseError {
    /// The datetime text matched none of the supported notations.
    InvalidDatetimeFormat,
    /// The duration text, once trimmed, has fewer than two characters.
    InvalidDurationFormat,
    /// What precedes the unit letter is not a signed integer.
    InvalidDurationNumber,
    /// The last character is none of `s`, `m`, `h`, `d`, `w`.
    InvalidDurationUnit,
    /// The operator is neither `+` nor `-`.
    InvalidOperator,
    /// An operator was given without a duration.
    MissingDuration,
}

impl ParseError {
    /// The line shown to the user for this error.
    pub open spec fn spec_message(self) -> Seq<char> {
        match self {
            ParseError::InvalidDatetimeFormat => "Could not parse datetime"@,
            ParseError::InvalidDurationFormat => "Could not parse duration"@,
            ParseError::InvalidDurationNumber => "Could not parse duration"@,
            ParseError::InvalidDurationUnit => "Could not parse duration"@,
            ParseError::InvalidOperator => "Invalid operator"@,
            ParseError::MissingDuration => "Found an operator but no duration was given"@,
        }
    }

    /// The line shown to the user for this error.
    pub fn message(&self) -> (line: &'static str)
        ensures
            line@ == self.spec_message(),
    {
        match self {
            ParseError::InvalidDatetimeFormat => "Could not parse datetime",
            ParseError::InvalidDurationFormat => "Could not parse duration",
            ParseError::InvalidDurationNumber => "Could not parse duration",
            ParseError::InvalidDurationUnit => "Could not parse duration",
            ParseError::InvalidOperator => "Invalid operator",
            ParseError::MissingDuration => "Found an operator but no duration was given",
        }
    }
}

} // verus!

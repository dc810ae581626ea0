//! Date arithmetic for the command line: read a point in time and a span,
//! and move the one by the other.
//!
//! The library is verified with Verus. What it takes on trust is gathered
//! in [`trusted`]: the calls into `chrono` that read the supported datetime
//! notations, and the clock.

pub mod calculation;
pub mod datetime;
pub mod duration;
pub mod error;
pub mod instant;
pub mod notation;
pub mod number;
pub mod text;
pub mod trusted;

pub use calculation::{complete, parse_operator, resolve, resolve_at, Calculation, Operator};
pub use datetime::{parse_datetime, parse_datetime_at, read_datetime, Reading};
pub use duration::{parse_duration, TimeSpan};
pub use error::ParseError;
pub use instant::{Instant, TimeOfDay};

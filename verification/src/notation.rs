//! The notations for a point in time, in the order in which they are tried.

use vstd::prelude::*;

verus! {

/// How many notations without an offset are tried.
pub const NAIVE_FORMATS: usize = 5;

/// How many notations with an offset are tried.
pub const AWARE_FORMATS: usize = 3;

/// The notations without an offset, in the order in which they are tried:
/// date and time with a space between them, date and time with a `T`, a
/// date alone, a time with seconds, a time without.
pub open spec fn naive_format(k: int) -> Seq<char> {
    if k == 0 {
        "%Y-%m-%d %H:%M:%S"@
    } else if k == 1 {
        "%Y-%m-%dT%H:%M:%S"@
    } else if k == 2 {
        "%Y-%m-%d"@
    } else if k == 3 {
        "%H:%M:%S"@
    } else {
        "%H:%M"@
    }
}

/// The notations with an offset, in the order in which they are tried:
/// date, time and offset with spaces between them, the same with a `T` and
/// no second space, and the same with a fraction of a second and a colon in
/// the offset.
pub open spec fn aware_format(k: int) -> Seq<char> {
    if k == 0 {
        "%Y-%m-%d %H:%M:%S %z"@
    } else if k == 1 {
        "%Y-%m-%dT%H:%M:%S%z"@
    } else {
        "%Y-%m-%dT%H:%M:%S%.f%:z"@
    }
}

/// Whether `format` is one of the notations without an offset.
pub open spec fn is_naive_format(format: Seq<char>) -> bool {
    exists|k: int| 0 <= k < NAIVE_FORMATS && format == #[trigger] naive_format(k)
}

/// Whether `format` is one of the notations with an offset.
pub open spec fn is_aware_format(format: Seq<char>) -> bool {
    exists|k: int| 0 <= k < AWARE_FORMATS && format == #[trigger] aware_format(k)
}

/// The `k`-th notation without an offset.
pub fn naive_format_at(k: usize) -> (format: &'static str)
    requires
        k < NAIVE_FORMATS,
    ensures
        format@ == naive_format(k as int),
        is_naive_format(format@),
{
    let format = if k == 0 {
        "%Y-%m-%d %H:%M:%S"
    } else if k == 1 {
        "%Y-%m-%dT%H:%M:%S"
    } else if k == 2 {
        "%Y-%m-%d"
    } else if k == 3 {
        "%H:%M:%S"
    } else {
        "%H:%M"
    };
    assert(format@ == naive_format(k as int));
    format
}

/// The `k`-th notation with an offset.
pub fn aware_format_at(k: usize) -> (format: &'static str)
    requires
        k < AWARE_FORMATS,
    ensures
        format@ == aware_format(k as int),
        is_aware_format(format@),
{
    let format = if k == 0 {
        "%Y-%m-%d %H:%M:%S %z"
    } else if k == 1 {
        "%Y-%m-%dT%H:%M:%S%z"
    } else {
        "%Y-%m-%dT%H:%M:%S%.f%:z"
    };
    assert(format@ == aware_format(k as int));
    format
}

} // verus!

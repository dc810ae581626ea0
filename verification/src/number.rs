//! Signed decimal integers as they are written.

use vstd::prelude::*;

verus! {

/// Whether `c` is one of `0` to `9`.
pub open spec fn is_digit(c: char) -> bool {
    '0' <= c <= '9'
}

/// The number that the digit `c` stands for.
pub open spec fn digit_value(c: char) -> int {
    c as int - '0' as int
}

/// Whether `s` holds digits only.
pub open spec fn all_digits(s: Seq<char>) -> bool {
    forall|i: int| 0 <= i < s.len() ==> is_digit(#[trigger] s[i])
}

/// The number that the digits `s` denote in base ten, most significant
/// digit first; zero for no digits.
pub open spec fn decimal_value(s: Seq<char>) -> int
    decreases s.len(),
{
    if s.len() == 0 {
        0
    } else {
        10 * decimal_value(s.drop_last()) + digit_value(s.last())
    }
}

/// `s` without the sign it may start with.
pub open spec fn unsigned_part(s: Seq<char>) -> Seq<char> {
    if s.len() > 0 && (s.first() == '-' || s.first() == '+') {
        s.drop_first()
    } else {
        s
    }
}

/// The number that `s` denotes, whether or not it fits a machine integer:
/// an optional `+` or `-`, then the digits.
pub open spec fn signed_value(s: Seq<char>) -> int {
    if s.len() > 0 && s.first() == '-' {
        -decimal_value(unsigned_part(s))
    } else {
        decimal_value(unsigned_part(s))
    }
}

/// The 64-bit integer that `s` denotes: an optional sign, then at least one
/// digit and nothing else, with a value in range. `None` for any other text.
pub open spec fn signed_integer(s: Seq<char>) -> Option<i64> {
    let digits = unsigned_part(s);
    if digits.len() > 0 && all_digits(digits) && i64::MIN <= signed_value(s) <= i64::MAX {
        Some(signed_value(s) as i64)
    } else {
        None
    }
}

/// Digits denote a number that is not negative and not below that of any
/// of their prefixes.
pub proof fn lemma_decimal_value_grows(s: Seq<char>, k: int)
    requires
        all_digits(s),
        0 <= k <= s.len(),
    ensures
        0 <= decimal_value(s.subrange(0, k)) <= decimal_value(s),
    decreases s.len() - k,
{
    lemma_decimal_value_nonnegative(s.subrange(0, k));
    if k == s.len() {
        assert(s.subrange(0, k) =~= s);
    } else {
        lemma_decimal_value_grows(s, k + 1);
        assert(s.subrange(0, k + 1).drop_last() =~= s.subrange(0, k));
    }
}

proof fn lemma_decimal_value_nonnegative(s: Seq<char>)
    requires
        all_digits(s),
    ensures
        0 <= decimal_value(s),
    decreases s.len(),
{
    if s.len() > 0 {
        lemma_decimal_value_nonnegative(s.drop_last());
    }
}

/// The number that `c` stands for if it is a digit.
pub fn digit_of(c: char) -> (digit: Option<u8>)
    ensures
        match digit {
            Some(d) => is_digit(c) && d == digit_value(c),
            None => !is_digit(c),
        },
{
    let code: u32 = c as u32;
    if 48 <= code && code <= 57 {
        Some((code - 48) as u8)
    } else {
        None
    }
}

/// Reads the characters of `chars` from `from` up to `to` as a signed
/// 64-bit integer.
pub fn parse_integer(chars: &Vec<char>, from: usize, to: usize) -> (number: Option<i64>)
    requires
        from <= to <= chars.len(),
    ensures
        number == signed_integer(chars@.subrange(from as int, to as int)),
{
    let ghost text = chars@.subrange(from as int, to as int);
    let mut i: usize = from;
    let mut negative = false;
    if i < to && (chars[i] == '-' || chars[i] == '+') {
        negative = chars[i] == '-';
        i += 1;
    }
    let first: usize = i;
    let ghost digits = chars@.subrange(first as int, to as int);
    if first == to {
        return None;
    }
    let mut magnitude: u64 = 0;
    while i < to
        invariant
            from <= first <= i <= to <= chars.len(),
            text == chars@.subrange(from as int, to as int),
            digits == chars@.subrange(first as int, to as int),
            digits == unsigned_part(text),
            negative <==> text.len() > 0 && text.first() == '-',
            all_digits(digits.subrange(0, i - first)),
            magnitude == decimal_value(digits.subrange(0, i - first)),
            magnitude <= 0x8000_0000_0000_0000,
        decreases to - i,
    {
        let digit: u64 = match digit_of(chars[i]) {
            Some(d) => d as u64,
            None => {
                assert(!is_digit(digits[i - first]));
                return None;
            },
        };
        let ghost longer = digits.subrange(0, i - first + 1);
        assert(longer.drop_last() =~= digits.subrange(0, i - first));
        if magnitude > (0x8000_0000_0000_0000 - digit) / 10 {
            proof {
                if all_digits(digits) {
                    lemma_decimal_value_grows(digits, i - first + 1);
                }
            }
            return None;
        }
        magnitude = magnitude * 10 + digit;
        i += 1;
    }
    assert(digits.subrange(0, to - first) =~= digits);
    if negative {
        if magnitude == 0x8000_0000_0000_0000 {
            Some(i64::MIN)
        } else {
            Some(-(magnitude as i64))
        }
    } else if magnitude > 0x7fff_ffff_ffff_ffff {
        None
    } else {
        Some(magnitude as i64)
    }
}

/// The digit that stands for `d`, for `d` from 0 to 9.
pub open spec fn digit_char(d: int) -> char {
    ('0' as int + d) as char
}

/// The digits of `n` in base ten, without leading zeros.
pub open spec fn decimal_digits(n: nat) -> Seq<char>
    decreases n,
{
    if n < 10 {
        seq![digit_char(n as int)]
    } else {
        decimal_digits(n / 10).push(digit_char((n % 10) as int))
    }
}

/// How `n` is written: a `-` for a negative number, then its digits.
pub open spec fn decimal_text(n: int) -> Seq<char> {
    if n < 0 {
        seq!['-'] + decimal_digits((-n) as nat)
    } else {
        decimal_digits(n as nat)
    }
}

/// The digits of a number are digits, at least one, and denote that number.
pub proof fn lemma_decimal_digits(n: nat)
    ensures
        decimal_digits(n).len() > 0,
        all_digits(decimal_digits(n)),
        decimal_value(decimal_digits(n)) == n,
    decreases n,
{
    let last = digit_char((n % 10) as int);
    if n < 10 {
        assert(decimal_digits(n).drop_last() =~= Seq::<char>::empty());
        assert(decimal_value(Seq::<char>::empty()) == 0);
    } else {
        let front = decimal_digits(n / 10);
        lemma_decimal_digits(n / 10);
        assert(front.push(last).drop_last() =~= front);
    }
}

/// A 64-bit integer, written out, is read back as itself.
pub proof fn lemma_decimal_text_reads_back(n: int)
    requires
        i64::MIN <= n <= i64::MAX,
    ensures
        signed_integer(decimal_text(n)) == Some(n as i64),
        decimal_text(n).len() > 0,
        decimal_text(n).first() == '-' || is_digit(decimal_text(n).first()),
{
    if n < 0 {
        let digits = decimal_digits((-n) as nat);
        lemma_decimal_digits((-n) as nat);
        assert(decimal_text(n).drop_first() =~= digits);
    } else {
        lemma_decimal_digits(n as nat);
    }
}

} // verus!

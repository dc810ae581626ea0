use datemath::number::{digit_of, parse_integer};
use datemath::text::chars_of;

fn read(text: &str) -> Option<i64> {
    let chars = chars_of(text);
    parse_integer(&chars, 0, chars.len())
}

#[test]
fn digits_have_their_value() {
    assert_eq!(digit_of('0'), Some(0));
    assert_eq!(digit_of('7'), Some(7));
    assert_eq!(digit_of('9'), Some(9));
}

#[test]
fn other_characters_are_no_digits() {
    assert_eq!(digit_of('/'), None);
    assert_eq!(digit_of(':'), None);
    assert_eq!(digit_of('a'), None);
    assert_eq!(digit_of('-'), None);
    assert_eq!(digit_of('\u{663}'), None);
    assert_eq!(digit_of('\u{ff11}'), None);
}

#[test]
fn integers_are_read_with_and_without_sign() {
    assert_eq!(read("0"), Some(0));
    assert_eq!(read("42"), Some(42));
    assert_eq!(read("+42"), Some(42));
    assert_eq!(read("-42"), Some(-42));
    assert_eq!(read("-0"), Some(0));
    assert_eq!(read("007"), Some(7));
    assert_eq!(read("-007"), Some(-7));
}

#[test]
fn integers_are_read_up_to_the_limits_of_64_bits() {
    assert_eq!(read("9223372036854775807"), Some(i64::MAX));
    assert_eq!(read("+9223372036854775807"), Some(i64::MAX));
    assert_eq!(read("-9223372036854775808"), Some(i64::MIN));
    assert_eq!(read("-9223372036854775807"), Some(i64::MIN + 1));
    assert_eq!(read("0000000000000000000000000000000000000009223372036854775807"), Some(i64::MAX));
}

#[test]
fn integers_beyond_64_bits_are_refused() {
    assert_eq!(read("9223372036854775808"), None);
    assert_eq!(read("-9223372036854775809"), None);
    assert_eq!(read("18446744073709551616"), None);
    assert_eq!(read("99999999999999999999999999999999999999999999"), None);
    assert_eq!(read("-99999999999999999999999999999999999999999999"), None);
    assert_eq!(read("92233720368547758070"), None);
}

#[test]
fn what_is_no_integer_is_refused() {
    assert_eq!(read(""), None);
    assert_eq!(read("+"), None);
    assert_eq!(read("-"), None);
    assert_eq!(read("--1"), None);
    assert_eq!(read("+-1"), None);
    assert_eq!(read("1-"), None);
    assert_eq!(read("1.5"), None);
    assert_eq!(read("1,000"), None);
    assert_eq!(read("1_000"), None);
    assert_eq!(read(" 1"), None);
    assert_eq!(read("1 "), None);
    assert_eq!(read("0x10"), None);
    assert_eq!(read("1e3"), None);
    assert_eq!(read("\u{661}\u{662}"), None);
    assert_eq!(read("99999999999999999999x"), None);
}

#[test]
fn a_part_of_the_characters_can_be_read() {
    let chars = chars_of("ab-12cd");
    assert_eq!(parse_integer(&chars, 2, 5), Some(-12));
    assert_eq!(parse_integer(&chars, 3, 5), Some(12));
    assert_eq!(parse_integer(&chars, 3, 3), None);
    assert_eq!(parse_integer(&chars, 2, 6), None);
}

#[test]
fn integers_are_read_as_the_standard_library_reads_them() {
    let samples = [
        "", "0", "-0", "+0", "1", "-1", "+1", "12345", "-12345", "00012", "+", "-", "++1", "1+",
        "9223372036854775807", "9223372036854775808", "-9223372036854775808",
        "-9223372036854775809", "1.0", "1,0", " 1", "1 ", "a", "1a", "a1", "\u{ff11}",
        "922337203685477580", "9223372036854775799", "10000000000000000000",
    ];
    for sample in samples {
        assert_eq!(read(sample), sample.parse::<i64>().ok(), "{:?}", sample);
    }
}

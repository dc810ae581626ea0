use datemath::text::{chars_of, is_space, text_eq, trim_bounds};

fn trimmed(text: &str) -> String {
    let chars = chars_of(text);
    let (start, end) = trim_bounds(&chars);
    chars[start..end].iter().collect()
}

#[test]
fn chars_of_keeps_every_character_in_order() {
    assert_eq!(chars_of(""), Vec::<char>::new());
    assert_eq!(chars_of("3d"), vec!['3', 'd']);
    assert_eq!(chars_of("a\u{e9}\u{1f600}z"), vec!['a', '\u{e9}', '\u{1f600}', 'z']);
}

#[test]
fn text_eq_compares_characters() {
    assert!(text_eq("now", "now"));
    assert!(text_eq("", ""));
    assert!(!text_eq("now", "Now"));
    assert!(!text_eq("now", "no"));
    assert!(!text_eq("no", "now"));
    assert!(!text_eq("+", "-"));
    assert!(text_eq("\u{e9}t\u{e9}", "\u{e9}t\u{e9}"));
}

#[test]
fn whitespace_is_what_the_standard_library_calls_whitespace() {
    let mut count: u32 = 0;
    for code in 0..=0x10FFFFu32 {
        if let Some(c) = char::from_u32(code) {
            assert_eq!(is_space(c), c.is_whitespace(), "U+{:04X}", code);
            if is_space(c) {
                count += 1;
            }
        }
    }
    assert_eq!(count, 25);
}

#[test]
fn trim_bounds_of_plain_text_span_the_text() {
    let chars = chars_of("3d");
    assert_eq!(trim_bounds(&chars), (0, 2));
}

#[test]
fn trim_bounds_leave_out_the_whitespace_around() {
    let chars = chars_of(" \t3 d\n ");
    assert_eq!(trim_bounds(&chars), (2, 5));
}

#[test]
fn trim_bounds_of_whitespace_alone_are_empty() {
    let chars = chars_of(" \t\n");
    let (start, end) = trim_bounds(&chars);
    assert_eq!(start, end);
    let none = chars_of("");
    assert_eq!(trim_bounds(&none), (0, 0));
}

#[test]
fn trimming_agrees_with_the_standard_library() {
    let samples = [
        "",
        " ",
        "3d",
        "  3d",
        "3d  ",
        " 3 d ",
        "\t\n\r 3d \u{b}\u{c}",
        "\u{a0}3d\u{2003}",
        "\u{3000}\u{1680}x\u{2028}\u{2029}",
        "\u{85}12h\u{202f}\u{205f}",
        "\u{200b}3d\u{200b}",
        "\u{feff}3d",
        " \u{e9} ",
    ];
    for sample in samples {
        assert_eq!(trimmed(sample), sample.trim(), "{:?}", sample);
    }
}

use probe_metrics::text::{
    chars_of, contains, render_decimal, render_numeral, same_text,
    split_ranges, trim_range,
};

#[test]
fn finds_phrases() {
    assert!(contains("connection timed out", "timed out"));
    assert!(contains("abc", ""));
    assert!(contains("", ""));
    assert!(contains("abc", "abc"));
    assert!(contains("aab", "ab"));
    assert!(!contains("abc", "abcd"));
    assert!(!contains("", "a"));
    assert!(!contains("ab\u{e9}", "\u{e8}"));
    assert!(contains("ab\u{e9}cd", "\u{e9}c"));
}

#[test]
fn splits_at_every_separator() {
    let chars = chars_of("a,,bc,");
    assert_eq!(split_ranges(&chars, 0, chars.len(), ','), vec![(0, 1), (2, 2), (3, 5), (6, 6)]);
    assert_eq!(split_ranges(&chars, 2, 5, ','), vec![(2, 2), (3, 5)]);
    let empty = chars_of("");
    assert_eq!(split_ranges(&empty, 0, 0, ','), vec![(0, 0)]);
}

#[test]
fn trims_unicode_white_space() {
    let chars = chars_of(" \t\u{a0}ab c\u{2003}\r\n");
    assert_eq!(trim_range(&chars, 0, chars.len()), (3, 7));
    let blank = chars_of(" \u{3000} ");
    let (a, b) = trim_range(&blank, 0, blank.len());
    assert_eq!(a, b);
    for text in ["", "x", "  x", "x  ", "\u{85}x\u{1680}", "\u{200b}x"] {
        let chars = chars_of(text);
        let (a, b) = trim_range(&chars, 0, chars.len());
        let got: String = chars[a..b].iter().collect();
        assert_eq!(got, text.trim());
    }
}

#[test]
fn renders_numbers() {
    assert_eq!(render_decimal(0), "0");
    assert_eq!(render_decimal(7), "7");
    assert_eq!(render_decimal(10), "10");
    assert_eq!(render_decimal(1234567890), "1234567890");
    assert_eq!(render_decimal(u64::MAX), "18446744073709551615");
    assert_eq!(render_numeral(0, 16), "0");
    assert_eq!(render_numeral(241, 16), "f1");
    assert_eq!(render_numeral(0xdeadbeef, 16), "deadbeef");
    assert_eq!(render_numeral(u64::MAX, 16), "ffffffffffffffff");
    assert_eq!(render_numeral(5, 2), "101");
}

#[test]
fn compares_texts() {
    assert!(same_text("abc", "abc"));
    assert!(same_text("", ""));
    assert!(!same_text("abc", "abd"));
    assert!(!same_text("abc", "ab"));
}

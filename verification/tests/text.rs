//! Text helpers.

use qsonaut_hostbridge::text::{
    contains_char, decimal_text, hex_text, same_text, split_lines, starts_with, strip_prefix, trim,
    trim_end, white_space,
};

#[test]
fn white_space_is_that_of_unicode() {
    for code in 0..=0x10FFFF_u32 {
        if let Some(c) = char::from_u32(code) {
            assert_eq!(white_space(c), c.is_whitespace(), "{code:x}");
        }
    }
}

#[test]
fn lines_end_as_in_std() {
    for text in ["", "\n", "a", "a\n", "a\r\nb", "a\r", "\r\n\r\n", "a\n\nb\n", "a\rb\n"] {
        let expected: Vec<String> = text.lines().map(|l| l.to_owned()).collect();
        assert_eq!(split_lines(text), expected, "{text:?}");
    }
}

#[test]
fn trimming_is_that_of_std() {
    for text in ["", " ", " a ", "\u{3000}b\u{85}", "c d\n", "\u{200B}e"] {
        assert_eq!(trim(text), text.trim());
        assert_eq!(trim_end(text), text.trim_end());
    }
}

#[test]
fn numbers_are_written_out() {
    assert_eq!(decimal_text(0), "0");
    assert_eq!(decimal_text(10_203), "10203");
    assert_eq!(decimal_text(u64::MAX), "18446744073709551615");
    assert_eq!(hex_text(0xBEEF, 16), "000000000000beef");
    assert_eq!(hex_text(u64::MAX, 16), "ffffffffffffffff");
}

#[test]
fn prefixes_are_found() {
    assert!(starts_with("hw:CARD=x", "hw:CARD="));
    assert!(!starts_with("hw:", "hw:CARD="));
    assert_eq!(strip_prefix("abc", "ab"), Some("c".to_owned()));
    assert_eq!(strip_prefix("abc", "b"), None);
    assert!(same_text("\u{e9}", "\u{e9}"));
    assert!(!same_text("a", "aa"));
    assert!(contains_char("CHANNELS: 2", '2'));
    assert!(!contains_char("", '2'));
}

use rsgewatch::text::{
    contains, eq_ignore_ascii_case, is_blank, parse_i64, parse_u32, parse_u64, trimmed,
};

#[test]
fn trimmed_removes_unicode_whitespace() {
    assert_eq!(trimmed("  bond \t\n"), "bond");
    assert_eq!(trimmed("\u{3000}x y\u{a0}"), "x y");
    assert_eq!(trimmed("   "), "");
    assert_eq!(trimmed(""), "");
    for s in ["  a b  ", "\u{2003}q\u{2028}", "x", "\r\n"] {
        assert_eq!(trimmed(s), s.trim());
    }
}

#[test]
fn blank_means_only_whitespace() {
    assert!(is_blank(""));
    assert!(is_blank(" \t\u{85}"));
    assert!(!is_blank(" a "));
}

#[test]
fn parse_u64_follows_std() {
    for s in ["0", "+5", "42", "18446744073709551615", "18446744073709551616", "-5", "+", "", " 1", "1a", "٣"] {
        assert_eq!(parse_u64(s), s.parse::<u64>().ok(), "input {s:?}");
    }
}

#[test]
fn parse_u32_follows_std() {
    for s in ["4294967295", "4294967296", "+7", "abc", "29492"] {
        assert_eq!(parse_u32(s), s.parse::<u32>().ok(), "input {s:?}");
    }
}

#[test]
fn parse_i64_follows_std() {
    for s in [
        "-9223372036854775808",
        "-9223372036854775809",
        "9223372036854775807",
        "9223372036854775808",
        "-",
        "+",
        "-+1",
        "+-1",
        "-12",
        "+12",
        "",
    ] {
        assert_eq!(parse_i64(s), s.parse::<i64>().ok(), "input {s:?}");
    }
}

#[test]
fn ascii_case_insensitive_equality() {
    assert!(eq_ignore_ascii_case("TRUE", "true"));
    assert!(eq_ignore_ascii_case("True", "tRUE"));
    assert!(!eq_ignore_ascii_case("true ", "true"));
    assert!(!eq_ignore_ascii_case("yes", "true"));
}

#[test]
fn substring_search() {
    assert!(contains("old school bond", "bond"));
    assert!(contains("bond", ""));
    assert!(!contains("bond", "bonds"));
    assert!(contains("abcabd", "abd"));
}

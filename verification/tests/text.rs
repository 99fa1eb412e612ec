use media_sorter::text::{
    chars_of, decimal_text, equals_ignoring_ascii_case, parse_decimal, same_text,
    signed_decimal_text, trim,
};

#[test]
fn chars_of_keeps_every_character() {
    assert_eq!(chars_of("a/ü.jpg"), vec!['a', '/', 'ü', '.', 'j', 'p', 'g']);
    assert_eq!(chars_of(""), Vec::<char>::new());
}

#[test]
fn same_text_compares_characters() {
    assert!(same_text("abc", "abc"));
    assert!(!same_text("abc", "abd"));
    assert!(!same_text("abc", "ab"));
}

#[test]
fn parse_decimal_reads_digits() {
    assert_eq!(parse_decimal("2023"), Some(2023));
    assert_eq!(parse_decimal("07"), Some(7));
    assert_eq!(parse_decimal("0"), Some(0));
}

#[test]
fn parse_decimal_refuses_what_is_no_number() {
    assert_eq!(parse_decimal(""), None);
    assert_eq!(parse_decimal("+7"), None);
    assert_eq!(parse_decimal("-7"), None);
    assert_eq!(parse_decimal(" 7"), None);
    assert_eq!(parse_decimal("7a"), None);
    assert_eq!(parse_decimal("٢٠٢٣"), None);
}

#[test]
fn parse_decimal_stops_at_the_largest_number() {
    assert_eq!(parse_decimal("4294967295"), Some(4294967295));
    assert_eq!(parse_decimal("4294967296"), None);
    assert_eq!(parse_decimal("99999999999999999999999999"), None);
    assert_eq!(parse_decimal("00000000000000000000000007"), Some(7));
}

#[test]
fn decimal_text_writes_digits() {
    assert_eq!(decimal_text(0), "0");
    assert_eq!(decimal_text(7), "7");
    assert_eq!(decimal_text(10), "10");
    assert_eq!(decimal_text(2023), "2023");
    assert_eq!(decimal_text(u64::MAX), "18446744073709551615");
}

#[test]
fn signed_decimal_text_writes_the_sign() {
    assert_eq!(signed_decimal_text(2023), "2023");
    assert_eq!(signed_decimal_text(0), "0");
    assert_eq!(signed_decimal_text(-5), "-5");
    assert_eq!(signed_decimal_text(i64::MIN), "-9223372036854775808");
}

#[test]
fn decimal_text_is_read_back_by_parse_decimal() {
    for n in [0u32, 1, 9, 10, 99, 100, 2023, 4294967295] {
        assert_eq!(parse_decimal(&decimal_text(n as u64)), Some(n));
    }
}

#[test]
fn trim_removes_surrounding_whitespace() {
    assert_eq!(trim("  1\n"), "1");
    assert_eq!(trim("\u{a0}a b\t"), "a b");
    assert_eq!(trim("   "), "");
    assert_eq!(trim(""), "");
    assert_eq!(trim("x"), "x");
    assert_eq!(trim("\u{3000}2023\u{2028}"), "2023");
}

#[test]
fn trim_agrees_with_the_standard_library() {
    for text in ["", " ", " a ", "\r\n1\r\n", "a\u{85}", "\u{1680}b c\u{205f}", "\u{200b}x"] {
        assert_eq!(trim(text), text.trim());
    }
}

#[test]
fn equals_ignoring_ascii_case_folds_letters_only() {
    assert!(equals_ignoring_ascii_case("JPG", "jpg"));
    assert!(equals_ignoring_ascii_case("JpEg", "jpeg"));
    assert!(!equals_ignoring_ascii_case("jpg", "jpeg"));
    assert!(!equals_ignoring_ascii_case("mp4", "mpT"));
    assert!(!equals_ignoring_ascii_case("@", "`"));
    assert!(!equals_ignoring_ascii_case("[", "{"));
}

use solari::text::{
    concat2, concat3, is_whitespace_char, join_strs, parse_u64_str, str_is_blank,
    strip_trailing_char, trim_str, u64_to_decimal,
};

#[test]
fn decimal_rendering_of_numbers() {
    assert_eq!(u64_to_decimal(0), "0");
    assert_eq!(u64_to_decimal(7), "7");
    assert_eq!(u64_to_decimal(10), "10");
    assert_eq!(u64_to_decimal(1725029869), "1725029869");
    assert_eq!(u64_to_decimal(u64::MAX), "18446744073709551615");
    for n in [1u64, 9, 99, 100, 101, 65535, 4294967295, 1 << 40] {
        assert_eq!(u64_to_decimal(n), n.to_string());
    }
}

#[test]
fn parsing_unsigned_numbers() {
    assert_eq!(parse_u64_str("3600"), Some(3600));
    assert_eq!(parse_u64_str("+42"), Some(42));
    assert_eq!(parse_u64_str("007"), Some(7));
    assert_eq!(parse_u64_str(""), None);
    assert_eq!(parse_u64_str("+"), None);
    assert_eq!(parse_u64_str("-"), None);
    assert_eq!(parse_u64_str("-1"), None);
    assert_eq!(parse_u64_str("-0"), None);
    assert_eq!(parse_u64_str("++1"), None);
    assert_eq!(parse_u64_str("12a"), None);
    assert_eq!(parse_u64_str(" 12"), None);
    assert_eq!(parse_u64_str("12 "), None);
    assert_eq!(parse_u64_str("١٢"), None);
    assert_eq!(parse_u64_str("18446744073709551615"), Some(u64::MAX));
    assert_eq!(parse_u64_str("18446744073709551616"), None);
    assert_eq!(parse_u64_str("99999999999999999999x"), None);
}

#[test]
fn parsing_agrees_with_std() {
    let samples = [
        "", "0", "+0", "1", "+", "-", "-5", "42", "3600", " 1", "1 ", "1_000", "0x10", "１",
        "18446744073709551615", "18446744073709551616", "000000000000000000000000001", "+-1",
        "abc", "12.5", "1e3",
    ];
    for s in samples {
        assert_eq!(parse_u64_str(s), s.parse::<u64>().ok(), "input {s:?}");
    }
}

#[test]
fn trimming_whitespace() {
    assert_eq!(trim_str("  abc \t\n"), "abc");
    assert_eq!(trim_str("\u{3000}x y\u{2028}"), "x y");
    assert_eq!(trim_str("   "), "");
    assert_eq!(trim_str(""), "");
    assert_eq!(trim_str("a"), "a");
}

#[test]
fn trimming_agrees_with_std() {
    let samples = [
        "", " ", "a", " a ", "\t\na b\r\n", "\u{85}x\u{a0}", "\u{1680}\u{2000}y\u{200a}",
        "\u{200b}z\u{200b}", "\u{feff}w", "é ", " ü\u{205f}", "\u{202f}\u{3000}",
    ];
    for s in samples {
        assert_eq!(trim_str(s), s.trim(), "input {s:?}");
        assert_eq!(str_is_blank(s), s.trim().is_empty(), "input {s:?}");
    }
}

#[test]
fn whitespace_set_agrees_with_std() {
    for u in 0u32..=0x10ffff {
        if let Some(c) = char::from_u32(u) {
            assert_eq!(is_whitespace_char(c), c.is_whitespace(), "char U+{u:04X}");
        }
    }
}

#[test]
fn stripping_trailing_slashes() {
    assert_eq!(strip_trailing_char("https://api.vipps.no///", '/'), "https://api.vipps.no");
    assert_eq!(strip_trailing_char("https://api.vipps.no", '/'), "https://api.vipps.no");
    assert_eq!(strip_trailing_char("///", '/'), "");
    assert_eq!(strip_trailing_char("a/b/", '/'), "a/b/".trim_end_matches('/'));
}

#[test]
fn joining_and_concatenating() {
    assert_eq!(join_strs(&vec![], ", "), "");
    assert_eq!(join_strs(&vec!["a"], ", "), "a");
    assert_eq!(join_strs(&vec!["a", "b", "c"], ", "), "a, b, c");
    assert_eq!(concat2("ab", "cd"), "abcd");
    assert_eq!(concat3("a", "-", "b"), "a-b");
}

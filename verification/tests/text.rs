use cloudflare_ddns::text::{chars_of, decimal_text, digit_of, is_whitespace, parse_u64, trim};

#[test]
fn chars_of_keeps_order() {
    assert_eq!(chars_of("a.b"), vec!['a', '.', 'b']);
    assert_eq!(chars_of(""), Vec::<char>::new());
}

#[test]
fn digit_of_reads_digits_only() {
    assert_eq!(digit_of('0'), Some(0));
    assert_eq!(digit_of('7'), Some(7));
    assert_eq!(digit_of('9'), Some(9));
    assert_eq!(digit_of('a'), None);
    assert_eq!(digit_of('/'), None);
    assert_eq!(digit_of(':'), None);
    assert_eq!(digit_of('\u{0663}'), None);
}

#[test]
fn parse_u64_reads_numerals() {
    assert_eq!(parse_u64("0"), Some(0));
    assert_eq!(parse_u64("300"), Some(300));
    assert_eq!(parse_u64("+300"), Some(300));
    assert_eq!(parse_u64("007"), Some(7));
    assert_eq!(parse_u64("18446744073709551615"), Some(u64::MAX));
}

#[test]
fn parse_u64_refuses_everything_else() {
    assert_eq!(parse_u64(""), None);
    assert_eq!(parse_u64("+"), None);
    assert_eq!(parse_u64("-5"), None);
    assert_eq!(parse_u64("++5"), None);
    assert_eq!(parse_u64(" 5"), None);
    assert_eq!(parse_u64("5 "), None);
    assert_eq!(parse_u64("5s"), None);
    assert_eq!(parse_u64("1_000"), None);
    assert_eq!(parse_u64("3.5"), None);
    assert_eq!(parse_u64("18446744073709551616"), None);
    assert_eq!(parse_u64("99999999999999999999999"), None);
}

#[test]
fn parse_u64_agrees_with_std() {
    for text in ["0", "1", "+1", "-1", "", "+", "0010", "12a", "18446744073709551615",
        "18446744073709551616", "184467440737095516150"]
    {
        assert_eq!(parse_u64(text), text.parse::<u64>().ok());
    }
}

#[test]
fn decimal_text_writes_shortest_numeral() {
    assert_eq!(decimal_text(0), "0");
    assert_eq!(decimal_text(9), "9");
    assert_eq!(decimal_text(10), "10");
    assert_eq!(decimal_text(300), "300");
    assert_eq!(decimal_text(u64::MAX), "18446744073709551615");
}

#[test]
fn decimal_text_reads_back() {
    for n in [0u64, 1, 9, 10, 99, 100, 12345, u64::MAX - 1, u64::MAX] {
        assert_eq!(parse_u64(&decimal_text(n)), Some(n));
    }
}

#[test]
fn is_whitespace_agrees_with_std() {
    for code in 0u32..0x3100 {
        if let Some(c) = char::from_u32(code) {
            assert_eq!(is_whitespace(c), c.is_whitespace());
        }
    }
    assert!(!is_whitespace('\u{FEFF}'));
    assert!(!is_whitespace('\u{200B}'));
}

#[test]
fn trim_removes_both_ends() {
    assert_eq!(trim("203.0.113.7\n"), "203.0.113.7");
    assert_eq!(trim("  \t10.0.0.1\r\n"), "10.0.0.1");
    assert_eq!(trim("a b"), "a b");
    assert_eq!(trim(" a b "), "a b");
    assert_eq!(trim(""), "");
    assert_eq!(trim(" \n\t "), "");
    assert_eq!(trim("\u{00A0}1.2.3.4\u{2003}"), "1.2.3.4");
    assert_eq!(trim("\u{FEFF}1.2.3.4"), "\u{FEFF}1.2.3.4");
}

#[test]
fn trim_agrees_with_std() {
    for text in ["", " ", "x", " x", "x ", "\u{3000}x\u{3000}", "é \u{85}", "\n\nab\ncd\n\n"] {
        assert_eq!(trim(text), text.trim());
    }
}

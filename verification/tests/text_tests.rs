use movie_bot::text::{decimal_string, parse_u32, remove_quotes, white_space};

#[test]
fn decimal_string_prints_numbers() {
    assert_eq!(decimal_string(0), "0");
    assert_eq!(decimal_string(7), "7");
    assert_eq!(decimal_string(1972), "1972");
    assert_eq!(decimal_string(u64::MAX), "18446744073709551615");
}

#[test]
fn parse_u32_accepts_what_std_accepts() {
    assert_eq!(parse_u32("1972"), Some(1972));
    assert_eq!(parse_u32("+42"), Some(42));
    assert_eq!(parse_u32("007"), Some(7));
    assert_eq!(parse_u32("4294967295"), Some(u32::MAX));
    assert_eq!(parse_u32("4294967296"), None);
    assert_eq!(parse_u32(""), None);
    assert_eq!(parse_u32("+"), None);
    assert_eq!(parse_u32("-1"), None);
    assert_eq!(parse_u32("19 72"), None);
    assert_eq!(parse_u32("٣"), None);
    for s in ["0", "12", "+3", "99999999999", "abc", "1e3", " 1"] {
        assert_eq!(parse_u32(s), s.parse::<u32>().ok(), "{}", s);
    }
}

#[test]
fn parse_after_print_round_trips() {
    for n in [0u32, 1, 9, 10, 1999, 65536, u32::MAX] {
        assert_eq!(parse_u32(&decimal_string(n as u64)), Some(n));
    }
}

#[test]
fn remove_quotes_takes_out_every_quote() {
    assert_eq!(remove_quotes("\"The Godfather\""), "The Godfather");
    assert_eq!(remove_quotes("a\"b\"\"c"), "abc");
    assert_eq!(remove_quotes("plain"), "plain");
    assert_eq!(remove_quotes(&remove_quotes("\"x\"")), "x");
    assert_eq!(remove_quotes(""), "");
}

#[test]
fn white_space_is_unicode_white_space() {
    for c in [' ', '\t', '\n', '\r', '\u{b}', '\u{c}', '\u{85}', '\u{a0}', '\u{1680}', '\u{2000}', '\u{200a}', '\u{2028}', '\u{2029}', '\u{202f}', '\u{205f}', '\u{3000}'] {
        assert!(white_space(c), "{:?}", c);
    }
    for c in ['a', '"', '\u{200b}', '\u{180e}', '\u{feff}', '0'] {
        assert!(!white_space(c), "{:?}", c);
    }
    for u in 0u32..0x3100 {
        if let Some(c) = char::from_u32(u) {
            assert_eq!(white_space(c), c.is_whitespace(), "{:#x}", u);
        }
    }
}

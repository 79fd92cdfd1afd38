use namada_indexer::text::{chars_of, parse_u64, replace, starts_with, str_equal};

#[test]
fn parse_u64_reads_decimal_numbers() {
    assert_eq!(parse_u64("0"), Some(0));
    assert_eq!(parse_u64("42"), Some(42));
    assert_eq!(parse_u64("+7"), Some(7));
    assert_eq!(parse_u64("007"), Some(7));
    assert_eq!(parse_u64("18446744073709551615"), Some(u64::MAX));
}

#[test]
fn parse_u64_rejects_what_std_rejects() {
    for s in ["", "+", "-1", "-", "1a", " 1", "1 ", "18446744073709551616", "99999999999999999999", "++1", "1.0"] {
        assert_eq!(parse_u64(s), None, "{s}");
        assert!(s.parse::<u64>().is_err());
    }
}

#[test]
fn parse_u64_agrees_with_std() {
    for s in ["0", "+0", "123456789", "+18446744073709551615", "4294967296"] {
        assert_eq!(parse_u64(s), s.parse::<u64>().ok(), "{s}");
    }
}

#[test]
fn replace_agrees_with_std() {
    let cases = [
        ("aaaa", "aa", "b"),
        ("{x}{x}", "{x}", "yy"),
        ("abc", "z", "q"),
        ("", "a", "b"),
        ("ababa", "aba", "X"),
        ("héllo wörld", "ö", "o"),
        ("xyz", "xyz", ""),
    ];
    for (s, p, r) in cases {
        assert_eq!(replace(s, p, r), s.replace(p, r), "{s} {p} {r}");
    }
}

#[test]
fn text_helpers() {
    assert!(starts_with("tnam1abc", "tnam"));
    assert!(!starts_with("tna", "tnam"));
    assert!(starts_with("abc", ""));
    assert!(str_equal("héllo", "héllo"));
    assert!(!str_equal("a", "b"));
    assert_eq!(chars_of("héllo"), vec!['h', 'é', 'l', 'l', 'o']);
}

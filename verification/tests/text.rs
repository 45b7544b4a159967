use loud_alarm::text::{decimal_string, parse_u8, to_ascii_lowercase, trimmed};

#[test]
fn decimal_matches_display() {
    for n in [0u32, 7, 10, 99, 100, 255, 1000, 65535, 4294967295] {
        assert_eq!(decimal_string(n), n.to_string());
    }
}

#[test]
fn lowercase_folds_ascii_only() {
    assert_eq!(to_ascii_lowercase("Hello WORLD 123"), "hello world 123");
    assert_eq!(to_ascii_lowercase("ÄÖÜ"), "ÄÖÜ");
}

#[test]
fn trim_matches_std() {
    for s in ["", "   ", " a ", "\t\nx y\r\n", "\u{2003}z\u{3000}", "\u{200B}q", "a"] {
        assert_eq!(trimmed(s), s.trim());
    }
}

#[test]
fn parse_u8_matches_std() {
    for s in ["0", "255", "256", "+1", "-1", "-0", "+", "", " 1", "1 ", "00000000000000000001", "9x"] {
        assert_eq!(parse_u8(s), s.parse::<u8>().ok(), "{s:?}");
    }
}

use sysnotify::text::{decimal_text, parse_u64_text, text_contains, text_equals, trim_text};

#[test]
fn trim_removes_surrounding_whitespace() {
    assert_eq!(trim_text("  Charging\n"), "Charging");
    assert_eq!(trim_text("\t\r\n"), "");
    assert_eq!(trim_text(""), "");
    assert_eq!(trim_text("a b"), "a b");
    assert_eq!(trim_text("\u{3000}x\u{a0}"), "x");
}

#[test]
fn trim_is_idempotent_on_examples() {
    for s in ["  x  ", "\n\nNot charging\n", "", " ", "y"] {
        let once = trim_text(s);
        assert_eq!(trim_text(&once), once);
    }
}

#[test]
fn contains_finds_substrings() {
    assert!(text_contains("wlan0: connected", "connected"));
    assert!(text_contains("abc", ""));
    assert!(!text_contains("ab", "abc"));
    assert!(!text_contains("wlan0: unavailable", "connected"));
    assert!(text_contains("connected", "connected"));
}

#[test]
fn equality_compares_characters() {
    assert!(text_equals("disk", "disk"));
    assert!(!text_equals("disk", "disks"));
    assert!(!text_equals("", "a"));
    assert!(text_equals("", ""));
}

#[test]
fn decimal_rendering() {
    assert_eq!(decimal_text(0), "0");
    assert_eq!(decimal_text(7), "7");
    assert_eq!(decimal_text(10), "10");
    assert_eq!(decimal_text(1234567890), "1234567890");
    assert_eq!(decimal_text(u64::MAX), "18446744073709551615");
}

#[test]
fn parse_matches_std() {
    for s in ["0", "42", "+7", "-7", "+", "", "12a", "18446744073709551615", "18446744073709551616", "007", " 1"] {
        assert_eq!(parse_u64_text(s), s.parse::<u64>().ok(), "input {:?}", s);
    }
}

#[test]
fn decimal_reads_back() {
    for n in [0u64, 9, 10, 99, 100, 65535, u64::MAX] {
        assert_eq!(parse_u64_text(&decimal_text(n)), Some(n));
    }
}

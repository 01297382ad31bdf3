use tauri_webdriver::digits::{parse_u16, parse_u64, u16_to_string, u64_to_string};

#[test]
fn formats_small_numbers() {
    assert_eq!(u64_to_string(0), "0");
    assert_eq!(u64_to_string(7), "7");
    assert_eq!(u64_to_string(10), "10");
    assert_eq!(u64_to_string(4445), "4445");
    assert_eq!(u16_to_string(65535), "65535");
}

#[test]
fn formats_the_largest_value() {
    assert_eq!(u64_to_string(u64::MAX), "18446744073709551615");
}

#[test]
fn parses_plain_numerals() {
    assert_eq!(parse_u64("123"), Some(123));
    assert_eq!(parse_u64("0"), Some(0));
    assert_eq!(parse_u64("007"), Some(7));
    assert_eq!(parse_u64("18446744073709551615"), Some(u64::MAX));
}

#[test]
fn rejects_non_numerals() {
    assert_eq!(parse_u64(""), None);
    assert_eq!(parse_u64("12a"), None);
    assert_eq!(parse_u64("-3"), None);
    assert_eq!(parse_u64(" 1"), None);
}

#[test]
fn rejects_values_that_overflow() {
    assert_eq!(parse_u64("18446744073709551616"), None);
    assert_eq!(parse_u64("99999999999999999999999"), None);
    assert_eq!(parse_u16("65536"), None);
    assert_eq!(parse_u16("65535"), Some(65535));
}

#[test]
fn numerals_round_trip() {
    for n in [0u64, 1, 9, 10, 99, 100, 4444, 65535, 1_000_000_007, u64::MAX] {
        assert_eq!(parse_u64(&u64_to_string(n)), Some(n));
    }
}

use todos::number::{format_i32, parse_i32, parse_or_zero};

#[test]
fn format_matches_to_string() {
    for n in [0, 1, 9, 10, 42, 100, -1, -10, -42, 2147483647, -2147483648, 1234567, -999] {
        assert_eq!(format_i32(n), n.to_string());
    }
}

#[test]
fn format_exact_values() {
    assert_eq!(format_i32(0), "0");
    assert_eq!(format_i32(-42), "-42");
    assert_eq!(format_i32(i32::MIN), "-2147483648");
    assert_eq!(format_i32(i32::MAX), "2147483647");
}

#[test]
fn parse_accepts_signed_digits() {
    assert_eq!(parse_i32("42"), Some(42));
    assert_eq!(parse_i32("+7"), Some(7));
    assert_eq!(parse_i32("-0"), Some(0));
    assert_eq!(parse_i32("007"), Some(7));
    assert_eq!(parse_i32("-2147483648"), Some(i32::MIN));
    assert_eq!(parse_i32("2147483647"), Some(i32::MAX));
}

#[test]
fn parse_refuses_what_std_refuses() {
    for s in ["", "-", "+", "12a", " 1", "1 ", "2147483648", "-2147483649", "1.5", "--1", "+-1", "99999999999999999999", "٣"] {
        assert_eq!(parse_i32(s), None, "{s}");
        assert!(s.parse::<i32>().is_err());
    }
}

#[test]
fn parse_agrees_with_std() {
    for s in ["0", "50", "100", "-5", "+100", "0000", "2147483647", "-2147483648", "x", "", "12345678901"] {
        assert_eq!(parse_i32(s), s.parse::<i32>().ok(), "{s}");
    }
}

#[test]
fn parse_or_zero_falls_back() {
    assert_eq!(parse_or_zero("75"), 75);
    assert_eq!(parse_or_zero(""), 0);
    assert_eq!(parse_or_zero("abc"), 0);
    assert_eq!(parse_or_zero("50.5"), 0);
    assert_eq!(parse_or_zero("-3"), -3);
}

#[test]
fn parse_reads_back_formatted_numbers() {
    for n in [0, 7, -7, 100, 2147483647, -2147483648, 31415] {
        assert_eq!(parse_i32(&format_i32(n)), Some(n));
    }
}

use fer_api::decimal::format_i32;
use fer_api::decimal::format_u32;
use fer_api::decimal::parse_i32;

#[test]
fn parse_simple() {
    assert_eq!(parse_i32("42"), Some(42));
    assert_eq!(parse_i32("0"), Some(0));
}

#[test]
fn parse_signs() {
    assert_eq!(parse_i32("+7"), Some(7));
    assert_eq!(parse_i32("-7"), Some(-7));
    assert_eq!(parse_i32("-0"), Some(0));
}

#[test]
fn parse_leading_zeros() {
    assert_eq!(parse_i32("007"), Some(7));
    assert_eq!(parse_i32("00000000000000000001"), Some(1));
}

#[test]
fn parse_bounds() {
    assert_eq!(parse_i32("2147483647"), Some(i32::MAX));
    assert_eq!(parse_i32("-2147483648"), Some(i32::MIN));
    assert_eq!(parse_i32("2147483648"), None);
    assert_eq!(parse_i32("-2147483649"), None);
    assert_eq!(parse_i32("99999999999999999999"), None);
}

#[test]
fn parse_rejects_junk() {
    assert_eq!(parse_i32(""), None);
    assert_eq!(parse_i32("-"), None);
    assert_eq!(parse_i32("+"), None);
    assert_eq!(parse_i32("12a"), None);
    assert_eq!(parse_i32("a12"), None);
    assert_eq!(parse_i32(" 1"), None);
    assert_eq!(parse_i32("1 "), None);
    assert_eq!(parse_i32("1.5"), None);
    assert_eq!(parse_i32("--1"), None);
}

#[test]
fn parse_matches_std() {
    for s in [
        "0", "42", "-42", "+9", "007", "", "-", "abc", "2147483647", "2147483648", "-2147483648",
        "-2147483649", "12 3", "0x10",
    ] {
        assert_eq!(parse_i32(s), s.parse::<i32>().ok(), "input {:?}", s);
    }
}

#[test]
fn format_values() {
    assert_eq!(format_u32(0).as_str(), "0");
    assert_eq!(format_u32(1234567890).as_str(), "1234567890");
    assert_eq!(format_i32(-123).as_str(), "-123");
    assert_eq!(format_i32(i32::MIN).as_str(), "-2147483648");
    assert_eq!(format_i32(i32::MAX).as_str(), "2147483647");
}

#[test]
fn format_parse_round_trip() {
    for n in [0, 1, -1, 9, 10, -10, 123456, -654321, i32::MAX, i32::MIN] {
        assert_eq!(parse_i32(format_i32(n).as_str()), Some(n));
        assert_eq!(format_i32(n).as_str(), n.to_string().as_str());
    }
}

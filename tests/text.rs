use ev3dev_rs::decimal::{format_i32, parse_i32};
use ev3dev_rs::Ev3Error;

#[test]
fn parses_decimal_integers() {
    assert_eq!(parse_i32("42"), Ok(42));
    assert_eq!(parse_i32("-7"), Ok(-7));
    assert_eq!(parse_i32("+3"), Ok(3));
    assert_eq!(parse_i32("007"), Ok(7));
    assert_eq!(parse_i32("2147483647"), Ok(i32::MAX));
    assert_eq!(parse_i32("-2147483648"), Ok(i32::MIN));
}

#[test]
fn rejects_what_is_not_an_integer() {
    for s in ["", "-", "+", "12a", " 1", "2147483648", "-2147483649", "99999999999999999999", "1.5", "é"] {
        assert_eq!(parse_i32(s), Err(Ev3Error::ParseInt { input: s.to_string() }), "{}", s);
    }
}

#[test]
fn formats_decimal_integers() {
    assert_eq!(format_i32(0), "0");
    assert_eq!(format_i32(-15), "-15");
    assert_eq!(format_i32(1050), "1050");
    assert_eq!(format_i32(i32::MIN), "-2147483648");
    assert_eq!(format_i32(i32::MAX), "2147483647");
    for n in [-1000, -1, 9, 10, 99, 123456] {
        assert_eq!(parse_i32(&format_i32(n)), Ok(n));
    }
}

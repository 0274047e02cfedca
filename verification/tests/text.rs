use beep::text::{decimal_string, parse_unsigned_at_most, push_decimal};

#[test]
fn decimal_renders_numbers() {
    assert_eq!(decimal_string(0), "0");
    assert_eq!(decimal_string(7), "7");
    assert_eq!(decimal_string(42), "42");
    assert_eq!(decimal_string(1000), "1000");
    assert_eq!(decimal_string(u64::MAX), "18446744073709551615");
}

#[test]
fn push_decimal_appends() {
    let mut s = String::from("n=");
    push_decimal(&mut s, 305);
    assert_eq!(s, "n=305");
}

#[test]
fn parse_accepts_digits_and_plus() {
    assert_eq!(parse_unsigned_at_most("42", u32::MAX as u64), Some(42));
    assert_eq!(parse_unsigned_at_most("+7", u32::MAX as u64), Some(7));
    assert_eq!(parse_unsigned_at_most("007", u32::MAX as u64), Some(7));
    assert_eq!(parse_unsigned_at_most("4294967295", u32::MAX as u64), Some(4294967295));
    assert_eq!(parse_unsigned_at_most("18446744073709551615", u64::MAX), Some(u64::MAX));
}

#[test]
fn parse_refuses_what_std_refuses() {
    for s in ["", "+", "-1", "-", " 1", "1 ", "1a", "++1", "4294967296", "\u{0661}"] {
        assert_eq!(parse_unsigned_at_most(s, u32::MAX as u64), s.parse::<u32>().ok().map(|v| v as u64), "{:?}", s);
        assert_eq!(parse_unsigned_at_most(s, u32::MAX as u64), None, "{:?}", s);
    }
    assert_eq!(parse_unsigned_at_most("18446744073709551616", u64::MAX), None);
    assert_eq!(parse_unsigned_at_most("99999999999999999999999", u64::MAX), None);
}

#[test]
fn parse_agrees_with_std_on_samples() {
    for s in ["0", "+0", "12", "000", "65535", "4294967295", "4294967296", "+4294967295", "x", "1_000"] {
        assert_eq!(parse_unsigned_at_most(s, u32::MAX as u64), s.parse::<u32>().ok().map(|v| v as u64), "{:?}", s);
        assert_eq!(parse_unsigned_at_most(s, u64::MAX), s.parse::<u64>().ok(), "{:?}", s);
    }
}

#[test]
fn decimal_reads_back() {
    for n in [0u64, 9, 10, 99, 12345, u32::MAX as u64, u64::MAX] {
        assert_eq!(parse_unsigned_at_most(&decimal_string(n), u64::MAX), Some(n));
    }
}

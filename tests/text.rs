use bart_api::text::{
    decimal_text, flag_from_number_text, parse_i32, parse_u8, signed_decimal_text, text_eq,
};

#[test]
fn text_eq_compares_characters() {
    assert!(text_eq("abc", "abc"));
    assert!(text_eq("", ""));
    assert!(!text_eq("abc", "abd"));
    assert!(!text_eq("abc", "ab"));
    assert!(text_eq("é€", "é€"));
}

#[test]
fn decimal_text_writes_digits() {
    assert_eq!(decimal_text(0), "0");
    assert_eq!(decimal_text(7), "7");
    assert_eq!(decimal_text(10), "10");
    assert_eq!(decimal_text(255), "255");
    assert_eq!(decimal_text(u64::MAX), "18446744073709551615");
}

#[test]
fn signed_decimal_text_writes_sign() {
    assert_eq!(signed_decimal_text(-42), "-42");
    assert_eq!(signed_decimal_text(0), "0");
    assert_eq!(signed_decimal_text(i64::MIN), "-9223372036854775808");
    assert_eq!(signed_decimal_text(i64::MAX), "9223372036854775807");
}

#[test]
fn parse_i32_reads_signed_numbers() {
    assert_eq!(parse_i32("42"), Some(42));
    assert_eq!(parse_i32("+42"), Some(42));
    assert_eq!(parse_i32("-42"), Some(-42));
    assert_eq!(parse_i32("007"), Some(7));
    assert_eq!(parse_i32("2147483647"), Some(i32::MAX));
    assert_eq!(parse_i32("-2147483648"), Some(i32::MIN));
}

#[test]
fn parse_i32_refuses_what_std_refuses() {
    for s in ["", "+", "-", "2147483648", "-2147483649", "12a", " 1", "1 ", "--1", "1.5"] {
        assert_eq!(parse_i32(s), None, "{}", s);
        assert!(s.parse::<i32>().is_err());
    }
}

#[test]
fn parse_i32_agrees_with_std() {
    for s in ["0", "-0", "+0", "123456789", "-99999", "00000000000000000000012"] {
        assert_eq!(parse_i32(s), s.parse::<i32>().ok(), "{}", s);
    }
}

#[test]
fn parse_u8_reads_unsigned_numbers() {
    assert_eq!(parse_u8("0"), Some(0));
    assert_eq!(parse_u8("+9"), Some(9));
    assert_eq!(parse_u8("255"), Some(255));
    assert_eq!(parse_u8("256"), None);
    assert_eq!(parse_u8("-0"), None);
    assert_eq!(parse_u8("-1"), None);
    assert_eq!(parse_u8(""), None);
}

#[test]
fn flag_from_number_text_reads_flags() {
    assert_eq!(flag_from_number_text("1"), Some(true));
    assert_eq!(flag_from_number_text("0"), Some(false));
    assert_eq!(flag_from_number_text("2"), Some(true));
    assert_eq!(flag_from_number_text("yes"), None);
    assert_eq!(flag_from_number_text("300"), None);
}

#[test]
fn i32_text_reads_back() {
    for n in [0i32, 1, 9, 10, -1, -10, 12345, i32::MAX, i32::MIN] {
        assert_eq!(parse_i32(&signed_decimal_text(n as i64)), Some(n));
    }
}

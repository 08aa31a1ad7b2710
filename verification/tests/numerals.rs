use osu::numeral::{is_float_literal, parse_i64, str_eq, u64_to_string};

#[test]
fn prints_decimal_numerals() {
    assert_eq!(u64_to_string(0), "0");
    assert_eq!(u64_to_string(7), "7");
    assert_eq!(u64_to_string(10), "10");
    assert_eq!(u64_to_string(774965), "774965");
    assert_eq!(u64_to_string(u64::MAX), "18446744073709551615");
}

#[test]
fn parses_plain_integers() {
    assert_eq!(parse_i64("0"), Some(0));
    assert_eq!(parse_i64("007"), Some(7));
    assert_eq!(parse_i64("774965"), Some(774965));
    assert_eq!(parse_i64("+5"), Some(5));
    assert_eq!(parse_i64("-5"), Some(-5));
    assert_eq!(parse_i64("-0"), Some(0));
}

#[test]
fn parses_the_extremes() {
    assert_eq!(parse_i64("9223372036854775807"), Some(i64::MAX));
    assert_eq!(parse_i64("-9223372036854775808"), Some(i64::MIN));
    assert_eq!(parse_i64("9223372036854775808"), None);
    assert_eq!(parse_i64("-9223372036854775809"), None);
    assert_eq!(parse_i64("99999999999999999999999"), None);
}

#[test]
fn rejects_non_numerals() {
    assert_eq!(parse_i64(""), None);
    assert_eq!(parse_i64("-"), None);
    assert_eq!(parse_i64("+"), None);
    assert_eq!(parse_i64("abc"), None);
    assert_eq!(parse_i64("1.5"), None);
    assert_eq!(parse_i64(" 1"), None);
    assert_eq!(parse_i64("1 "), None);
    assert_eq!(parse_i64("--1"), None);
}

#[test]
fn parse_agrees_with_the_standard_reader() {
    for s in [
        "0", "007", "-5", "+5", "9223372036854775807", "-9223372036854775808",
        "9223372036854775808", "", "-", "abc", "1.5", "12e3",
    ] {
        assert_eq!(parse_i64(s), s.parse::<i64>().ok(), "on {:?}", s);
    }
}

#[test]
fn accepts_float_literals() {
    for s in [
        "0", "196", "5.74", "-5.74", "+1.5", "1.", ".5", "1e10", "1.5e-3", "2E+7", "inf",
        "-inf", "Infinity", "NaN", "nan", "1e999",
    ] {
        assert!(is_float_literal(s), "expected accept: {:?}", s);
    }
}

#[test]
fn rejects_non_float_literals() {
    for s in ["", "-", ".", "abc", "1.2.3", "1e", "e5", "1e+", "in", "infin", " 1.5", "1,5"] {
        assert!(!is_float_literal(s), "expected reject: {:?}", s);
    }
}

#[test]
fn float_check_agrees_with_the_standard_reader() {
    for s in [
        "0", "5.74", "-5.74", "1.", ".5", "1e10", "1.5e-3", "inf", "infinity", "NaN", "",
        "-", ".", "abc", "1.2.3", "1e", "e5", " 1.5",
    ] {
        assert_eq!(is_float_literal(s), s.parse::<f64>().is_ok(), "on {:?}", s);
    }
}

#[test]
fn string_equality_is_exact() {
    assert!(str_eq("", ""));
    assert!(str_eq("abc", "abc"));
    assert!(!str_eq("abc", "abd"));
    assert!(!str_eq("abc", "ab"));
    assert!(str_eq("naïve", "naïve"));
    assert!(!str_eq("naïve", "naive"));
}

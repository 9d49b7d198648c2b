use cyclonedds::bigint::{
    decimal_str_to_i64, decimal_str_to_u64, i64_to_decimal_str, u64_needs_bigint,
    u64_to_decimal_str, MAX_SAFE_INTEGER_U64,
};

#[test]
fn u64_extremes_roundtrip_exactly() {
    for v in [0u64, 1, MAX_SAFE_INTEGER_U64, MAX_SAFE_INTEGER_U64 + 1, u64::MAX] {
        let s = u64_to_decimal_str(v);
        assert_eq!(decimal_str_to_u64(&s).unwrap(), v, "v={v}");
    }
    assert_eq!(u64_to_decimal_str(u64::MAX), "18446744073709551615");
}

#[test]
fn i64_extremes_roundtrip_exactly() {
    for v in [0i64, -1, 1, i64::MIN, i64::MAX] {
        let s = i64_to_decimal_str(v);
        assert_eq!(decimal_str_to_i64(&s).unwrap(), v, "v={v}");
    }
    assert_eq!(i64_to_decimal_str(i64::MIN), "-9223372036854775808");
}

#[test]
fn malformed_and_out_of_range_are_typed_errors() {
    for bad in ["", " 12", "12 ", "+12", "0x10", "1.5", "abc", "-", "--1"] {
        assert!(decimal_str_to_u64(bad).is_err(), "u64 must reject {bad:?}");
        assert!(decimal_str_to_i64(bad).is_err(), "i64 must reject {bad:?}");
    }
    assert!(decimal_str_to_u64("18446744073709551616").is_err());
    assert!(decimal_str_to_i64("9223372036854775808").is_err());
    assert!(decimal_str_to_i64("-9223372036854775809").is_err());
    assert!(decimal_str_to_u64("-1").is_err());
    assert_eq!(decimal_str_to_u64("00042").unwrap(), 42);
    assert_eq!(decimal_str_to_i64("-00042").unwrap(), -42);
}

#[test]
fn overlong_digit_strings_rejected_by_length_before_parse() {
    for bad in ["1000000000000000000000", "99999999999999999999999"] {
        let err = decimal_str_to_u64(bad).unwrap_err().to_string();
        assert!(err.contains("out of range"), "unexpected: {err}");
        assert!(err.contains(bad), "input echoed: {err}");
    }
}

#[test]
fn precision_boundary_matches_js_max_safe_integer() {
    assert!(!u64_needs_bigint(MAX_SAFE_INTEGER_U64));
    assert!(u64_needs_bigint(MAX_SAFE_INTEGER_U64 + 1));
    assert!(u64_needs_bigint(i64::MAX as u64));
}

#[test]
fn decimal_text_of_small_values() {
    assert_eq!(u64_to_decimal_str(0), "0");
    assert_eq!(u64_to_decimal_str(42), "42");
    assert_eq!(i64_to_decimal_str(-7), "-7");
    assert_eq!(decimal_str_to_i64("-0").unwrap(), 0);
}

#[test]
fn rejected_input_is_quoted_in_the_message() {
    let err = decimal_str_to_u64("a\"b").unwrap_err().to_string();
    assert_eq!(err, "serialization error: invalid u64 decimal string: \"a\\\"b\"");
    let err = decimal_str_to_i64("x").unwrap_err().to_string();
    assert_eq!(err, "serialization error: invalid i64 decimal string: \"x\"");
}

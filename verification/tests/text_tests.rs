use fql::text::{i64_dec_string, u64_dec_string};

#[test]
fn test_u64_decimal() {
    assert_eq!(u64_dec_string(0), "0");
    assert_eq!(u64_dec_string(7), "7");
    assert_eq!(u64_dec_string(10), "10");
    assert_eq!(u64_dec_string(12345), "12345");
    assert_eq!(u64_dec_string(u64::MAX), "18446744073709551615");
}

#[test]
fn test_i64_decimal() {
    assert_eq!(i64_dec_string(0), "0");
    assert_eq!(i64_dec_string(-1), "-1");
    assert_eq!(i64_dec_string(42), "42");
    assert_eq!(i64_dec_string(i64::MIN), "-9223372036854775808");
    assert_eq!(i64_dec_string(i64::MAX), "9223372036854775807");
}

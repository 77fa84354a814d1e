use httpserver::decimal::u64_to_decimal;

#[test]
fn test_decimal_single_digits() {
    assert_eq!(u64_to_decimal(0), "0");
    assert_eq!(u64_to_decimal(7), "7");
    assert_eq!(u64_to_decimal(9), "9");
}

#[test]
fn test_decimal_multi_digit_values() {
    assert_eq!(u64_to_decimal(10), "10");
    assert_eq!(u64_to_decimal(404), "404");
    assert_eq!(u64_to_decimal(1_000_000), "1000000");
    assert_eq!(u64_to_decimal(1234567890987654321), "1234567890987654321");
    assert_eq!(u64_to_decimal(u64::MAX), "18446744073709551615");
}

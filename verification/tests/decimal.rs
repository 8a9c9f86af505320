use session_counter::decimal::{i32_to_decimal, u64_to_decimal};

#[test]
fn unsigned_zero() {
    assert_eq!(u64_to_decimal(0), "0");
}

#[test]
fn unsigned_one_digit() {
    assert_eq!(u64_to_decimal(7), "7");
}

#[test]
fn unsigned_round_numbers() {
    assert_eq!(u64_to_decimal(10), "10");
    assert_eq!(u64_to_decimal(100), "100");
    assert_eq!(u64_to_decimal(1000), "1000");
}

#[test]
fn unsigned_general() {
    assert_eq!(u64_to_decimal(42), "42");
    assert_eq!(u64_to_decimal(987654321), "987654321");
}

#[test]
fn unsigned_largest() {
    assert_eq!(u64_to_decimal(u64::MAX), "18446744073709551615");
}

#[test]
fn signed_zero_and_small() {
    assert_eq!(i32_to_decimal(0), "0");
    assert_eq!(i32_to_decimal(1), "1");
    assert_eq!(i32_to_decimal(-1), "-1");
}

#[test]
fn signed_general() {
    assert_eq!(i32_to_decimal(123), "123");
    assert_eq!(i32_to_decimal(-123), "-123");
}

#[test]
fn signed_extremes() {
    assert_eq!(i32_to_decimal(i32::MAX), "2147483647");
    assert_eq!(i32_to_decimal(i32::MIN), "-2147483648");
}

use rusty_journal::decimal::{decimal_of_i64, decimal_of_u64};

#[test]
fn unsigned_numbers_in_decimal() {
    assert_eq!(decimal_of_u64(0), "0");
    assert_eq!(decimal_of_u64(9), "9");
    assert_eq!(decimal_of_u64(10), "10");
    assert_eq!(decimal_of_u64(1_234_567_890), "1234567890");
    assert_eq!(decimal_of_u64(u64::MAX), "18446744073709551615");
}

#[test]
fn signed_numbers_in_decimal() {
    assert_eq!(decimal_of_i64(0), "0");
    assert_eq!(decimal_of_i64(7), "7");
    assert_eq!(decimal_of_i64(-7), "-7");
    assert_eq!(decimal_of_i64(-10), "-10");
    assert_eq!(decimal_of_i64(i64::MAX), "9223372036854775807");
    assert_eq!(decimal_of_i64(i64::MIN), "-9223372036854775808");
}

#[test]
fn decimal_agrees_with_the_standard_notation() {
    let mut n: u64 = 1;
    for _ in 0..64 {
        assert_eq!(decimal_of_u64(n), format!("{}", n));
        assert_eq!(decimal_of_u64(n - 1), format!("{}", n - 1));
        assert_eq!(decimal_of_i64(-((n / 2) as i64)), format!("{}", -((n / 2) as i64)));
        n = n.wrapping_mul(2);
    }
}

use volleyball::display::{score_display, u64_to_decimal};
use volleyball::game::{Score, Side};

#[test]
fn decimal_of_zero() {
    assert_eq!(u64_to_decimal(0), "0");
}

#[test]
fn decimal_of_single_digit() {
    assert_eq!(u64_to_decimal(7), "7");
}

#[test]
fn decimal_of_round_number() {
    assert_eq!(u64_to_decimal(10), "10");
    assert_eq!(u64_to_decimal(100), "100");
}

#[test]
fn decimal_of_many_digits() {
    assert_eq!(u64_to_decimal(12_345), "12345");
    assert_eq!(u64_to_decimal(9_876_543_210), "9876543210");
}

#[test]
fn decimal_of_largest_counter() {
    assert_eq!(u64_to_decimal(u64::MAX), "18446744073709551615");
}

#[test]
fn display_projects_per_side() {
    let score = Score { left: 3, right: 17 };
    assert_eq!(score_display(&score, Side::Left), "3");
    assert_eq!(score_display(&score, Side::Right), "17");
}

#[test]
fn display_is_idempotent() {
    let score = Score { left: 21, right: 9 };
    let first = score_display(&score, Side::Left);
    let second = score_display(&score, Side::Left);
    assert_eq!(first, second);
    assert_eq!(first, "21");
}

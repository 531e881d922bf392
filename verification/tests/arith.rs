use stopwatch::arith::{clamp_to_i64, clamp_to_limit, floor_div, wrap_to_i32};
use stopwatch::text::{push_decimal, push_signed_decimal, push_two_digits};
use stopwatch::timeline::ORIGIN_LIMIT;

#[test]
fn floor_div_rounds_down() {
    assert_eq!(floor_div(7, 2), 3);
    assert_eq!(floor_div(6, 2), 3);
    assert_eq!(floor_div(0, 5), 0);
    assert_eq!(floor_div(-1, 2), -1);
    assert_eq!(floor_div(-2, 2), -1);
    assert_eq!(floor_div(-3, 2), -2);
    assert_eq!(floor_div(-7, 7), -1);
    assert_eq!(floor_div(-8, 7), -2);
    assert_eq!(floor_div(i128::MIN, 1), i128::MIN);
    assert_eq!(floor_div(i128::MAX, 1), i128::MAX);
    assert_eq!(floor_div(i128::MIN, u32::MAX), i128::MIN.div_euclid(u32::MAX as i128));
    assert_eq!(floor_div(-1, u32::MAX), -1);
}

#[test]
fn clamp_to_i64_keeps_what_fits() {
    assert_eq!(clamp_to_i64(0), 0);
    assert_eq!(clamp_to_i64(-5), -5);
    assert_eq!(clamp_to_i64(i64::MAX as i128), i64::MAX);
    assert_eq!(clamp_to_i64(i64::MAX as i128 + 1), i64::MAX);
    assert_eq!(clamp_to_i64(i64::MIN as i128), i64::MIN);
    assert_eq!(clamp_to_i64(i64::MIN as i128 - 1), i64::MIN);
    assert_eq!(clamp_to_i64(i128::MAX), i64::MAX);
    assert_eq!(clamp_to_i64(i128::MIN), i64::MIN);
}

#[test]
fn clamp_to_limit_keeps_what_fits() {
    assert_eq!(clamp_to_limit(3, 10), 3);
    assert_eq!(clamp_to_limit(-10, 10), -10);
    assert_eq!(clamp_to_limit(-11, 10), -10);
    assert_eq!(clamp_to_limit(11, 10), 10);
    assert_eq!(clamp_to_limit(5, 0), 0);
    assert_eq!(clamp_to_limit(i128::MAX, ORIGIN_LIMIT), ORIGIN_LIMIT);
    assert_eq!(clamp_to_limit(i128::MIN, ORIGIN_LIMIT), -ORIGIN_LIMIT);
    assert_eq!(ORIGIN_LIMIT, 1i128 << 97);
}

#[test]
fn wrap_to_i32_keeps_the_low_bits() {
    for x in [
        0i64,
        1,
        -1,
        60,
        i32::MAX as i64,
        i32::MAX as i64 + 1,
        i32::MIN as i64,
        i32::MIN as i64 - 1,
        0xffff_ffff,
        0x1_0000_0000,
        0x1_0000_0001,
        -0x1_0000_0000,
        i64::MAX,
        i64::MIN,
        2_148_000_000,
    ] {
        assert_eq!(wrap_to_i32(x), x as i32);
    }
    assert_eq!(wrap_to_i32(i64::MAX), -1);
    assert_eq!(wrap_to_i32(0x8000_0000), i32::MIN);
}

#[test]
fn push_decimal_writes_digits() {
    for n in [0u64, 7, 10, 99, 100, 1_234_567_890, u64::MAX] {
        let mut out = String::from("n=");
        push_decimal(&mut out, n);
        assert_eq!(out, format!("n={}", n));
    }
}

#[test]
fn push_signed_decimal_writes_the_sign() {
    for x in [0i64, 5, -5, -10, 1_000, i64::MAX, i64::MIN, i64::MIN + 1] {
        let mut out = String::new();
        push_signed_decimal(&mut out, x);
        assert_eq!(out, format!("{}", x));
    }
}

#[test]
fn push_two_digits_pads_with_zero() {
    for n in [0u64, 5, 9, 10, 42, 99] {
        let mut out = String::from("x.");
        push_two_digits(&mut out, n);
        assert_eq!(out, format!("x.{:02}", n));
    }
}

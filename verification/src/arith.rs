//! Integer helpers: clamping and floor division on wide integers.

use vstd::prelude::*;

verus! {

/// `x` brought into the closed range from `lo` to `hi`.
pub open spec fn clamp(x: int, lo: int, hi: int) -> int {
    if x < lo {
        lo
    } else if x > hi {
        hi
    } else {
        x
    }
}

/// A 64-bit clock reading times a 32-bit factor stays below 2^96.
pub proof fn lemma_product_bound(t: int, k: int)
    by (nonlinear_arith)
    requires
        0 <= t <= u64::MAX,
        0 <= k <= u32::MAX,
    ensures
        0 <= t * k < 0x1_0000_0000_0000_0000_0000_0000,
{
}

/// A signed 64-bit time times a 32-bit factor stays within 2^95 of zero.
pub proof fn lemma_signed_product_bound(x: int, k: int)
    by (nonlinear_arith)
    requires
        i64::MIN <= x <= i64::MAX,
        0 <= k <= u32::MAX,
    ensures
        -0x8000_0000_0000_0000_0000_0000 <= x * k < 0x8000_0000_0000_0000_0000_0000,
{
}

/// For a negative dividend, floor division is one less than the negated
/// quotient of `-(a + 1)`, a dividend that is not negative.
pub proof fn lemma_floor_div_negative(a: int, d: int)
    requires
        a < 0,
        d > 0,
    ensures
        a / d == -((-(a + 1)) / d) - 1,
{
    let n = -(a + 1);
    let q = n / d;
    let r = n % d;
    vstd::arithmetic::div_mod::lemma_fundamental_div_mod(n, d);
    vstd::arithmetic::div_mod::lemma_mod_bound(n, d);
    assert(d * (-q - 1) == -(d * q) - d) by (nonlinear_arith);
    assert(a == d * (-q - 1) + (d - 1 - r));
    vstd::arithmetic::div_mod::lemma_fundamental_div_mod_converse_div(a, d, -q - 1, d - 1 - r);
}

/// Floor division of a signed dividend by a positive divisor.
pub fn floor_div(a: i128, d: u32) -> (q: i128)
    requires
        d > 0,
    ensures
        q == a as int / d as int,
{
    let dd: i128 = d as i128;
    if a >= 0 {
        a / dd
    } else {
        let n: i128 = -(a + 1);
        proof {
            lemma_floor_div_negative(a as int, d as int);
            vstd::arithmetic::div_mod::lemma_div_nonincreasing(n as int, d as int);
            vstd::arithmetic::div_mod::lemma_div_pos_is_pos(n as int, d as int);
        }
        -(n / dd) - 1
    }
}

/// `x` kept within the range of `i64`.
pub fn clamp_to_i64(x: i128) -> (r: i64)
    ensures
        r == clamp(x as int, i64::MIN as int, i64::MAX as int),
{
    if x < i64::MIN as i128 {
        i64::MIN
    } else if x > i64::MAX as i128 {
        i64::MAX
    } else {
        x as i64
    }
}

/// `x` kept within `limit` of zero.
pub fn clamp_to_limit(x: i128, limit: i128) -> (r: i128)
    requires
        0 <= limit,
    ensures
        r == clamp(x as int, -limit, limit as int),
{
    if x < -limit {
        -limit
    } else if x > limit {
        limit
    } else {
        x
    }
}

/// The low 32 bits of `x`, read as a signed number.
pub open spec fn wrap_i32(x: int) -> int {
    (x + 0x8000_0000) % 0x1_0000_0000 - 0x8000_0000
}

/// `x` cut down to its low 32 bits, read as a signed number.
pub fn wrap_to_i32(x: i64) -> (r: i32)
    ensures
        r == wrap_i32(x as int),
{
    if x >= 0 {
        let low: i64 = x % 0x1_0000_0000;
        if low >= 0x8000_0000 {
            (low - 0x1_0000_0000) as i32
        } else {
            low as i32
        }
    } else {
        let low: i64 = 0xffff_ffff - (-(x + 1)) % 0x1_0000_0000;
        if low >= 0x8000_0000 {
            (low - 0x1_0000_0000) as i32
        } else {
            low as i32
        }
    }
}

} // verus!

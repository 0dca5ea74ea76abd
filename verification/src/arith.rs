//! Integer helpers shared by the signal chain: saturation, clamping and
//! flooring division of signed values.

use vstd::prelude::*;
use vstd::arithmetic::div_mod::{
    lemma_fundamental_div_mod,
    lemma_fundamental_div_mod_converse,
    lemma_mod_bound,
};

verus! {

/// Nanoseconds in one second.
pub const NANOS_PER_SECOND: u64 = 1_000_000_000;

/// `x` limited to the closed interval from `lo` to `hi`.
pub open spec fn clamp(x: int, lo: int, hi: int) -> int {
    if x < lo {
        lo
    } else if x > hi {
        hi
    } else {
        x
    }
}

/// The magnitude of `x`.
pub open spec fn abs(x: int) -> int {
    if x < 0 {
        -x
    } else {
        x
    }
}

/// `x` limited to what a 32-bit signal can carry.
pub open spec fn saturate(x: int) -> int {
    clamp(x, i32::MIN as int, i32::MAX as int)
}

/// Remainder with the sign of the dividend.
pub open spec fn rem_toward_zero(a: int, b: int) -> int
    recommends
        b > 0,
{
    if a >= 0 {
        a % b
    } else {
        -((-a) % b)
    }
}

pub fn clamp_i64(x: i64, lo: i64, hi: i64) -> (r: i64)
    ensures
        r == clamp(x as int, lo as int, hi as int),
{
    if x < lo {
        lo
    } else if x > hi {
        hi
    } else {
        x
    }
}

pub fn saturate_i32(x: i128) -> (r: i32)
    ensures
        r == saturate(x as int),
{
    if x < -2147483648 {
        -2147483648
    } else if x > 2147483647 {
        2147483647
    } else {
        x as i32
    }
}

/// A quotient by a positive divisor lies between zero and the dividend.
pub proof fn lemma_quotient_between(a: int, b: int)
    requires
        b > 0,
    ensures
        a >= 0 ==> 0 <= a / b <= a,
        a <= 0 ==> a <= a / b <= 0,
{
    lemma_fundamental_div_mod(a, b);
    lemma_mod_bound(a, b);
    let q = a / b;
    let r = a % b;
    assert((a >= 0 ==> 0 <= q <= a) && (a <= 0 ==> a <= q <= 0)) by (nonlinear_arith)
        requires
            a == b * q + r,
            0 <= r < b,
    ;
}

/// Quotient rounded toward negative infinity.
pub fn div_floor(a: i128, b: i128) -> (q: i128)
    requires
        b > 0,
        a > i128::MIN,
    ensures
        q == a as int / b as int,
        a >= 0 ==> 0 <= q <= a,
        a <= 0 ==> a <= q <= 0,
{
    proof {
        lemma_quotient_between(a as int, b as int);
    }
    if a >= 0 {
        a / b
    } else {
        let n: i128 = -a;
        let q: i128 = n / b;
        let r: i128 = n % b;
        proof {
            assert(n == q * b + r && 0 <= r < b) by (nonlinear_arith)
                requires
                    q == n / b,
                    r == n % b,
                    b > 0,
                    n >= 0,
            ;
            if r == 0 {
                assert(a == (-q) * b + 0) by (nonlinear_arith)
                    requires
                        a == -n,
                        n == q * b + r,
                        r == 0,
                ;
                lemma_fundamental_div_mod_converse(a as int, b as int, -q as int, 0);
            } else {
                assert(a == (-q - 1) * b + (b - r)) by (nonlinear_arith)
                    requires
                        a == -n,
                        n == q * b + r,
                ;
                lemma_fundamental_div_mod_converse(
                    a as int,
                    b as int,
                    -q - 1,
                    (b - r) as int,
                );
            }
        }
        if r == 0 {
            -q
        } else {
            -q - 1
        }
    }
}

/// Product of a value of at most 64 bits and one of at most 62.
pub fn wide_product(a: i128, b: i128) -> (p: i128)
    requires
        -0x1_0000_0000_0000_0000 <= a <= 0x1_0000_0000_0000_0000,
        -0x4000_0000_0000_0000 <= b <= 0x4000_0000_0000_0000,
    ensures
        p == a * b,
        -0x4000_0000_0000_0000_0000_0000_0000_0000 <= p <= 0x4000_0000_0000_0000_0000_0000_0000_0000,
{
    assert(-0x4000_0000_0000_0000_0000_0000_0000_0000 <= a * b
        <= 0x4000_0000_0000_0000_0000_0000_0000_0000) by (nonlinear_arith)
        requires
            -0x1_0000_0000_0000_0000 <= a <= 0x1_0000_0000_0000_0000,
            -0x4000_0000_0000_0000 <= b <= 0x4000_0000_0000_0000,
    ;
    a * b
}

/// `a * b / d`, rounded toward negative infinity.
pub fn scale_floor(a: i128, b: i128, d: i128) -> (q: i128)
    requires
        -0x1_0000_0000_0000_0000 <= a <= 0x1_0000_0000_0000_0000,
        -0x4000_0000_0000_0000 <= b <= 0x4000_0000_0000_0000,
        d > 0,
    ensures
        q == (a * b) / (d as int),
{
    let p: i128 = wide_product(a, b);
    div_floor(p, d)
}

pub fn rem_toward_zero_i64(a: i64, b: i64) -> (r: i64)
    requires
        b > 0,
        a > i64::MIN,
    ensures
        r == rem_toward_zero(a as int, b as int),
{
    if a >= 0 {
        a % b
    } else {
        let n: i64 = -a;
        -(n % b)
    }
}

} // verus!

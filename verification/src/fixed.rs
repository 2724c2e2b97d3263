//! Signed fixed-point scalars.
//!
//! A scalar is an `i64` counting micro-units: the value `x` stands for the
//! real number `x / SCALE`. All rounding is toward zero, which keeps
//! negation exact: `(-a) * b` rounds to the negation of `a * b`.

use vstd::prelude::*;

verus! {

/// Number of fixed-point steps in one unit (one world unit, one second,
/// one radian, ...).
pub const SCALE: i64 = 1_000_000;

/// Truncating (round-toward-zero) division, the rounding that the
/// executable code below performs. Meaningful for `b > 0`.
pub open spec fn tdiv(a: int, b: int) -> int {
    if a >= 0 {
        a / b
    } else {
        -((-a) / b)
    }
}

/// Fixed-point product: `a * b` rescaled back to micro-units.
pub open spec fn fmul(a: int, b: int) -> int {
    tdiv(a * b, SCALE as int)
}

/// Fixed-point quotient: `a / b` in micro-units. Meaningful for `b > 0`.
pub open spec fn fdiv(a: int, b: int) -> int {
    tdiv(a * (SCALE as int), b)
}

/// `v` forced into the interval `[lo, hi]`.
pub open spec fn clamp_spec(v: int, lo: int, hi: int) -> int {
    if v < lo {
        lo
    } else if v > hi {
        hi
    } else {
        v
    }
}

/// Truncating division never grows the magnitude of the dividend.
pub proof fn lemma_tdiv_magnitude(a: int, b: int)
    requires
        b >= 1,
    ensures
        vstd::math::abs(tdiv(a, b)) <= vstd::math::abs(a),
        a >= 0 ==> 0 <= tdiv(a, b) <= a,
        a <= 0 ==> a <= tdiv(a, b) <= 0,
{
    if a >= 0 {
        assert(0 <= a / b <= a) by (nonlinear_arith)
            requires
                a >= 0,
                b >= 1,
        ;
    } else {
        assert(0 <= (-a) / b <= -a) by (nonlinear_arith)
            requires
                -a >= 0,
                b >= 1,
        ;
    }
}

/// A bound on both factors bounds a truncated product: if `|a| <= ma` and
/// `|b| <= mb` then `|fmul(a, b)| <= ma * mb / SCALE`.
pub proof fn lemma_fmul_bound(a: int, b: int, ma: int, mb: int)
    requires
        vstd::math::abs(a) <= ma,
        vstd::math::abs(b) <= mb,
    ensures
        vstd::math::abs(fmul(a, b)) <= tdiv(ma * mb, SCALE as int),
        vstd::math::abs(fmul(a, b)) <= (ma * mb) / (SCALE as int),
{
    assert(vstd::math::abs(a * b) <= ma * mb) by (nonlinear_arith)
        requires
            vstd::math::abs(a) <= ma,
            vstd::math::abs(b) <= mb,
    ;
    lemma_tdiv_magnitude(a * b, SCALE as int);
    lemma_tdiv_times_divisor(a * b, SCALE as int);
    assert(vstd::math::abs(tdiv(a * b, SCALE as int)) <= (ma * mb) / (SCALE as int))
        by (nonlinear_arith)
        requires
            vstd::math::abs(tdiv(a * b, SCALE as int)) * (SCALE as int) <= vstd::math::abs(a * b),
            vstd::math::abs(a * b) <= ma * mb,
    ;
}

/// `tdiv(a, b) * b` is within `b` of `a`, on the zero side of it.
pub proof fn lemma_tdiv_times_divisor(a: int, b: int)
    requires
        b >= 1,
    ensures
        vstd::math::abs(tdiv(a, b)) * b <= vstd::math::abs(a),
{
    if a >= 0 {
        assert((a / b) * b <= a) by (nonlinear_arith)
            requires
                a >= 0,
                b >= 1,
        ;
    } else {
        assert(((-a) / b) * b <= -a) by (nonlinear_arith)
            requires
                -a >= 0,
                b >= 1,
        ;
    }
}

/// Magnitude of a scalar, as the unsigned machine type.
pub fn abs_u64(a: i64) -> (r: u64)
    ensures
        r == vstd::math::abs(a as int),
{
    if a >= 0 {
        a as u64
    } else {
        (-(a as i128)) as u64
    }
}

/// Fixed-point multiply. The caller shows that the rescaled product fits.
pub fn mul_fx(a: i64, b: i64) -> (r: i64)
    requires
        -(i64::MAX as int) <= fmul(a as int, b as int) <= i64::MAX as int,
    ensures
        r == fmul(a as int, b as int),
{
    let neg: bool = (a < 0) != (b < 0);
    let aa: u64 = abs_u64(a);
    let bb: u64 = abs_u64(b);
    assert((aa as int) * (bb as int) <= 0x4000_0000_0000_0000_0000_0000_0000_0000int)
        by (nonlinear_arith)
        requires
            aa <= 0x8000_0000_0000_0000u64,
            bb <= 0x8000_0000_0000_0000u64,
    ;
    let p: u128 = (aa as u128) * (bb as u128);
    assert(p == vstd::math::abs((a as int) * (b as int))) by (nonlinear_arith)
        requires
            aa == vstd::math::abs(a as int),
            bb == vstd::math::abs(b as int),
            p == (aa as int) * (bb as int),
    ;
    let q: u128 = p / (SCALE as u128);
    proof {
        if neg {
            assert((a as int) * (b as int) <= 0) by (nonlinear_arith)
                requires
                    (a < 0) != (b < 0),
            ;
        } else {
            assert((a as int) * (b as int) >= 0) by (nonlinear_arith)
                requires
                    (a < 0) == (b < 0),
            ;
        }
        if (a as int) * (b as int) >= 0 {
            assert(q == fmul(a as int, b as int));
        } else {
            assert(q == -fmul(a as int, b as int));
        }
    }
    if neg {
        -(q as i64)
    } else {
        q as i64
    }
}

/// Fixed-point divide by a positive scalar. The caller shows that the
/// rescaled quotient fits.
pub fn div_fx(a: i64, b: i64) -> (r: i64)
    requires
        b > 0,
        -(i64::MAX as int) <= fdiv(a as int, b as int) <= i64::MAX as int,
    ensures
        r == fdiv(a as int, b as int),
{
    let neg: bool = a < 0;
    let aa: u64 = abs_u64(a);
    let p: u128 = (aa as u128) * (SCALE as u128);
    assert(p == vstd::math::abs((a as int) * (SCALE as int))) by (nonlinear_arith)
        requires
            aa == vstd::math::abs(a as int),
            p == (aa as int) * (SCALE as int),
    ;
    let q: u128 = p / (b as u128);
    proof {
        if a >= 0 {
            assert((a as int) * (SCALE as int) >= 0) by (nonlinear_arith)
                requires
                    a >= 0,
            ;
            assert(q == fdiv(a as int, b as int));
        } else {
            assert((a as int) * (SCALE as int) < 0) by (nonlinear_arith)
                requires
                    a < 0,
            ;
            assert(q == -fdiv(a as int, b as int));
        }
    }
    if neg {
        -(q as i64)
    } else {
        q as i64
    }
}

/// `v` forced into `[lo, hi]`.
pub fn clamp_i64(v: i64, lo: i64, hi: i64) -> (r: i64)
    requires
        lo <= hi,
    ensures
        r == clamp_spec(v as int, lo as int, hi as int),
        lo <= r <= hi,
{
    if v < lo {
        lo
    } else if v > hi {
        hi
    } else {
        v
    }
}

} // verus!

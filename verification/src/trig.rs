//! Fixed-point angles and a rational approximation of sine and cosine.
//!
//! An angle is a fixed-point scalar in micro-radians, kept in `[0, TAU_FX)`.
//! Cosine is computed with Bhaskara I's rational approximation on a quarter
//! turn and extended to the full turn by symmetry; sine is the cosine of the
//! angle shifted by a quarter turn. The approximation is a policy of this
//! library — its exact value is the formula below, not the transcendental
//! function — and it is exact at the axis angles: `cos_fx(0) == SCALE`.

use vstd::prelude::*;
use crate::fixed::{SCALE, tdiv};

verus! {

/// Half turn in micro-radians.
pub const PI_FX: i64 = 3_141_593;

/// Quarter turn in micro-radians.
pub const HALF_PI_FX: i64 = 1_570_796;

/// Full turn in micro-radians.
pub const TAU_FX: i64 = 6_283_185;

/// Bhaskara I's cosine approximation on a quarter turn (in micro-units):
/// `(pi^2 - 4 x^2) / (pi^2 + x^2)`, exact at `x == 0`.
pub open spec fn cos_quarter_spec(x: int) -> int {
    tdiv(
        ((PI_FX as int) * (PI_FX as int) - 4 * (x * x)) * (SCALE as int),
        (PI_FX as int) * (PI_FX as int) + x * x,
    )
}

/// Cosine of an angle in `[0, TAU_FX)`, by quadrant symmetry.
pub open spec fn cos_spec(a: int) -> int {
    if a <= HALF_PI_FX as int {
        cos_quarter_spec(a)
    } else if a <= PI_FX as int {
        -cos_quarter_spec(PI_FX as int - a)
    } else if a <= PI_FX as int + HALF_PI_FX as int {
        -cos_quarter_spec(a - PI_FX as int)
    } else {
        cos_quarter_spec(TAU_FX as int - a)
    }
}

/// Sine of an angle in `[0, TAU_FX)`: the cosine a quarter turn behind.
pub open spec fn sin_spec(a: int) -> int {
    if a >= HALF_PI_FX as int {
        cos_spec(a - HALF_PI_FX as int)
    } else {
        cos_spec(a + TAU_FX as int - HALF_PI_FX as int)
    }
}

/// Any angle reduced to `[0, TAU_FX)`.
pub open spec fn wrap_spec(v: int) -> int {
    v % (TAU_FX as int)
}

fn cos_quarter(x: i64) -> (r: i64)
    requires
        0 <= x <= HALF_PI_FX + 1,
    ensures
        r == cos_quarter_spec(x as int),
        -SCALE <= r <= SCALE,
{
    let pisq: i64 = PI_FX * PI_FX;
    assert(0 <= (x as int) * (x as int) <= 1_570_797int * 1_570_797int) by (nonlinear_arith)
        requires
            0 <= x <= 1_570_797,
    ;
    let xsq: i64 = x * x;
    let den: i64 = pisq + xsq;
    let num: i64 = pisq - 4 * xsq;
    if num >= 0 {
        let p: u128 = (num as u128) * (SCALE as u128);
        let q: u128 = p / (den as u128);
        proof {
            assert((num as int) * (SCALE as int) <= (den as int) * (SCALE as int))
                by (nonlinear_arith)
                requires
                    0 <= num <= den,
                    SCALE >= 1,
            ;
            vstd::arithmetic::div_mod::lemma_div_is_ordered(
                (num as int) * (SCALE as int),
                (den as int) * (SCALE as int),
                den as int,
            );
            vstd::arithmetic::div_mod::lemma_div_multiples_vanish(SCALE as int, den as int);
            assert((den as int) * (SCALE as int) == (den as int) * (SCALE as int));
            assert(((den as int) * (SCALE as int)) / (den as int) == SCALE as int);
        }
        q as i64
    } else {
        let m: i64 = -num;
        proof {
            assert(4 * (x as int) * (x as int) <= ((PI_FX + 1) as int) * ((PI_FX + 1) as int))
                by (nonlinear_arith)
                requires
                    0 <= x <= HALF_PI_FX + 1,
                    2 * (HALF_PI_FX + 1) == PI_FX + 1,
            ;
        }
        let p: u128 = (m as u128) * (SCALE as u128);
        let q: u128 = p / (den as u128);
        proof {
            assert((m as int) * (SCALE as int) <= (den as int) * (SCALE as int))
                by (nonlinear_arith)
                requires
                    0 <= m <= den,
                    SCALE >= 1,
            ;
            vstd::arithmetic::div_mod::lemma_div_is_ordered(
                (m as int) * (SCALE as int),
                (den as int) * (SCALE as int),
                den as int,
            );
            vstd::arithmetic::div_mod::lemma_div_multiples_vanish(SCALE as int, den as int);
        }
        -(q as i64)
    }
}

/// Cosine of an angle in `[0, TAU_FX)`, in micro-units.
pub fn cos_fx(a: i64) -> (r: i64)
    requires
        0 <= a < TAU_FX,
    ensures
        r == cos_spec(a as int),
        -SCALE <= r <= SCALE,
{
    if a <= HALF_PI_FX {
        cos_quarter(a)
    } else if a <= PI_FX {
        -cos_quarter(PI_FX - a)
    } else if a <= PI_FX + HALF_PI_FX {
        -cos_quarter(a - PI_FX)
    } else {
        cos_quarter(TAU_FX - a)
    }
}

/// Sine of an angle in `[0, TAU_FX)`, in micro-units.
pub fn sin_fx(a: i64) -> (r: i64)
    requires
        0 <= a < TAU_FX,
    ensures
        r == sin_spec(a as int),
        -SCALE <= r <= SCALE,
{
    if a >= HALF_PI_FX {
        cos_fx(a - HALF_PI_FX)
    } else {
        cos_fx(a + TAU_FX - HALF_PI_FX)
    }
}

/// Any angle reduced to `[0, TAU_FX)`.
pub fn wrap_angle(v: i64) -> (r: i64)
    ensures
        r == wrap_spec(v as int),
        0 <= r < TAU_FX,
{
    proof {
        vstd::arithmetic::div_mod::lemma_mod_bound(v as int, TAU_FX as int);
    }
    if v >= 0 {
        let r: u64 = (v as u64) % (TAU_FX as u64);
        r as i64
    } else {
        let m: u64 = ((-(v as i128)) as u64) % (TAU_FX as u64);
        if m == 0 {
            proof {
                let q = (-(v as int)) / (TAU_FX as int);
                vstd::arithmetic::div_mod::lemma_fundamental_div_mod(-(v as int), TAU_FX as int);
                vstd::arithmetic::div_mod::lemma_fundamental_div_mod_converse(
                    v as int,
                    TAU_FX as int,
                    -q,
                    0,
                );
            }
            0
        } else {
            proof {
                let q = (-(v as int)) / (TAU_FX as int);
                vstd::arithmetic::div_mod::lemma_fundamental_div_mod(-(v as int), TAU_FX as int);
                vstd::arithmetic::div_mod::lemma_fundamental_div_mod_converse(
                    v as int,
                    TAU_FX as int,
                    -q - 1,
                    TAU_FX as int - (m as int),
                );
            }
            TAU_FX - (m as i64)
        }
    }
}

} // verus!

//! Fixed-point trigonometry for the camera's field of view.
//!
//! Sine and cosine are evaluated by their Maclaurin series, term by term
//! in fixed point, far enough for the series tail to fall below one
//! millionth on the half-turn the camera can ask for; the tangent is
//! their quotient.  Angles are in radians, in fixed point.  A cosine that
//! has fallen to or below zero makes the tangent saturate to `INFINITY`,
//! the same signal an unbounded real tangent would send the caller.

use vstd::prelude::*;

use crate::fixed::INFINITY;
use crate::fixed::PI_FP;
use crate::fixed::SCALE;
use crate::fixed::add_sat;
use crate::fixed::div_fp;
use crate::fixed::div_t;
use crate::fixed::div_wide;
use crate::fixed::mul_fp;
use crate::fixed::sat64;
use crate::fixed::sat_narrow;
use crate::fixed::spec_add;
use crate::fixed::spec_div_fp;
use crate::fixed::spec_div_t;
use crate::fixed::spec_mul_fp;
use crate::fixed::spec_sub;
use crate::fixed::sub_sat;
use crate::fixed::tdiv;

verus! {

/// The sine series through the eleventh power, in fixed point.
pub open spec fn spec_sin(x: i64) -> i64 {
    let x2 = spec_mul_fp(x, x);
    let x3 = spec_mul_fp(x2, x);
    let x5 = spec_mul_fp(x3, x2);
    let x7 = spec_mul_fp(x5, x2);
    let x9 = spec_mul_fp(x7, x2);
    let x11 = spec_mul_fp(x9, x2);
    spec_sub(
        spec_add(
            spec_sub(
                spec_add(spec_sub(x, spec_div_t(x3, 6)), spec_div_t(x5, 120)),
                spec_div_t(x7, 5040),
            ),
            spec_div_t(x9, 362880),
        ),
        spec_div_t(x11, 39916800),
    )
}

/// The cosine series through the tenth power, in fixed point.
pub open spec fn spec_cos(x: i64) -> i64 {
    let x2 = spec_mul_fp(x, x);
    let x4 = spec_mul_fp(x2, x2);
    let x6 = spec_mul_fp(x4, x2);
    let x8 = spec_mul_fp(x6, x2);
    let x10 = spec_mul_fp(x8, x2);
    spec_sub(
        spec_add(
            spec_sub(
                spec_add(spec_sub(SCALE, spec_div_t(x2, 2)), spec_div_t(x4, 24)),
                spec_div_t(x6, 720),
            ),
            spec_div_t(x8, 40320),
        ),
        spec_div_t(x10, 3628800),
    )
}

/// The tangent: sine over cosine, saturating where the cosine has
/// fallen to or below zero.
pub open spec fn spec_tan(x: i64) -> i64 {
    if spec_cos(x) <= 0 {
        INFINITY
    } else {
        spec_div_fp(spec_sin(x), spec_cos(x))
    }
}

/// Degrees to radians: scaled by pi over a half turn.
pub open spec fn spec_radians(deg: i64) -> i64 {
    sat64(tdiv(deg as int * PI_FP as int, 180 * SCALE as int))
}

/// Fixed-point sine.
pub fn sin_fp(x: i64) -> (r: i64)
    ensures
        r == spec_sin(x),
{
    let x2 = mul_fp(x, x);
    let x3 = mul_fp(x2, x);
    let x5 = mul_fp(x3, x2);
    let x7 = mul_fp(x5, x2);
    let x9 = mul_fp(x7, x2);
    let x11 = mul_fp(x9, x2);
    let mut s = sub_sat(x, div_t(x3, 6));
    s = add_sat(s, div_t(x5, 120));
    s = sub_sat(s, div_t(x7, 5040));
    s = add_sat(s, div_t(x9, 362880));
    sub_sat(s, div_t(x11, 39916800))
}

/// Fixed-point cosine.
pub fn cos_fp(x: i64) -> (r: i64)
    ensures
        r == spec_cos(x),
{
    let x2 = mul_fp(x, x);
    let x4 = mul_fp(x2, x2);
    let x6 = mul_fp(x4, x2);
    let x8 = mul_fp(x6, x2);
    let x10 = mul_fp(x8, x2);
    let mut c = sub_sat(SCALE, div_t(x2, 2));
    c = add_sat(c, div_t(x4, 24));
    c = sub_sat(c, div_t(x6, 720));
    c = add_sat(c, div_t(x8, 40320));
    sub_sat(c, div_t(x10, 3628800))
}

/// Fixed-point tangent.
pub fn tan_fp(x: i64) -> (r: i64)
    ensures
        r == spec_tan(x),
{
    let s = sin_fp(x);
    let c = cos_fp(x);
    if c <= 0 {
        INFINITY
    } else {
        div_fp(s, c)
    }
}

/// Degrees to radians in fixed point.
pub fn radians_fp(deg: i64) -> (r: i64)
    ensures
        r == spec_radians(deg),
{
    proof {
        assert(i128::MIN < (deg as int) * (PI_FP as int) <= i128::MAX) by (nonlinear_arith)
            requires
                i64::MIN <= deg <= i64::MAX,
                PI_FP == 3_141_593,
        ;
    }
    let p: i128 = deg as i128 * PI_FP as i128;
    sat_narrow(div_wide(p, 180_000_000))
}

} // verus!

//! Saturating fixed-point scalar arithmetic.
//!
//! All real-valued quantities of the renderer (coordinates, distances,
//! angles) are carried as `i64` values in units of one millionth, so 1.0
//! is `SCALE`.  Operations saturate at the ends of the `i64` range instead
//! of overflowing: a value that has run off to the end of the range acts
//! as an infinity, which is exactly the role the distance fold and the ray
//! march give it.  Division truncates toward zero, as Rust's `/` does;
//! it is computed on unsigned magnitudes with the sign applied afterwards.

use vstd::prelude::*;

verus! {

/// Fixed-point unit: the representation of 1.0.
pub const SCALE: i64 = 1_000_000;

/// Convergence threshold of the ray march: 0.0001 in fixed point.
pub const EPSILON: i64 = 100;

/// The greatest representable value, used as +infinity by the distance fold.
pub const INFINITY: i64 = i64::MAX;

/// The circle constant in fixed point: round(pi * SCALE).
pub const PI_FP: i64 = 3_141_593;

/// Magnitude of a mathematical integer.
pub open spec fn iabs(a: int) -> int {
    if a >= 0 {
        a
    } else {
        -a
    }
}

/// Clamp a mathematical integer into the `i64` range.
pub open spec fn sat64(x: int) -> i64 {
    if x > i64::MAX {
        i64::MAX
    } else if x < i64::MIN {
        i64::MIN
    } else {
        x as i64
    }
}

/// Division truncating toward zero (the rounding of Rust's `/`):
/// the quotient of the magnitudes, negated when the signs differ.
pub open spec fn tdiv(a: int, b: int) -> int {
    if (a >= 0) == (b >= 0) {
        iabs(a) / iabs(b)
    } else {
        -(iabs(a) / iabs(b))
    }
}

/// Remainder of truncating division (the rounding of Rust's `%`):
/// the remainder of the magnitudes, carrying the sign of the dividend.
pub open spec fn trem(a: int, b: int) -> int {
    if a >= 0 {
        iabs(a) % iabs(b)
    } else {
        -(iabs(a) % iabs(b))
    }
}

/// Magnitude of an `i64`, exact even for `i64::MIN`.
fn abs_u128(a: i64) -> (m: u128)
    ensures
        m == iabs(a as int),
{
    if a < 0 {
        (-(a as i128)) as u128
    } else {
        a as u128
    }
}

/// Magnitude of an `i128` above the minimum.
fn abs_wide(a: i128) -> (m: u128)
    requires
        a != i128::MIN,
    ensures
        m == iabs(a as int),
{
    if a < 0 {
        (-a) as u128
    } else {
        a as u128
    }
}

/// The exact square of an `i64`, as a wide unsigned value.
pub(crate) fn square_u128(a: i64) -> (m: u128)
    ensures
        m == (a as int) * (a as int),
        m <= 0x4000_0000_0000_0000_0000_0000_0000_0000u128,
{
    let ma = abs_u128(a);
    proof {
        assert((a as int) * (a as int) == iabs(a as int) * iabs(a as int)) by (nonlinear_arith);
        assert(iabs(a as int) * iabs(a as int) <= 0x4000_0000_0000_0000_0000_0000_0000_0000int)
            by (nonlinear_arith)
            requires
                0 <= iabs(a as int) <= 0x8000_0000_0000_0000int,
        ;
    }
    ma * ma
}

/// Saturating magnitude (so that the magnitude of `i64::MIN` is defined).
pub fn abs_sat(a: i64) -> (r: i64)
    ensures
        r == sat64(iabs(a as int)),
{
    if a < 0 {
        neg_sat(a)
    } else {
        a
    }
}

/// Clamp a wide intermediate into the `i64` range.
pub fn sat_narrow(x: i128) -> (r: i64)
    ensures
        r == sat64(x as int),
{
    if x > i64::MAX as i128 {
        i64::MAX
    } else if x < i64::MIN as i128 {
        i64::MIN
    } else {
        x as i64
    }
}

/// Saturating addition.
pub fn add_sat(a: i64, b: i64) -> (r: i64)
    ensures
        r == sat64(a + b),
{
    sat_narrow(a as i128 + b as i128)
}

/// Saturating subtraction.
pub fn sub_sat(a: i64, b: i64) -> (r: i64)
    ensures
        r == sat64(a - b),
{
    sat_narrow(a as i128 - b as i128)
}

/// Saturating negation.
pub fn neg_sat(a: i64) -> (r: i64)
    ensures
        r == sat64(-a),
{
    if a == i64::MIN {
        i64::MAX
    } else {
        -a
    }
}

/// Truncating division of a wide dividend by a positive divisor,
/// on magnitudes.
pub(crate) fn div_wide(p: i128, d: u128) -> (q: i128)
    requires
        p != i128::MIN,
        d > 0,
    ensures
        q == tdiv(p as int, d as int),
        iabs(q as int) <= iabs(p as int),
{
    let m = abs_wide(p);
    let mq = m / d;
    proof {
        assert(mq <= m) by (nonlinear_arith)
            requires
                mq == m as int / d as int,
                d >= 1,
                m >= 0,
        ;
    }
    if p < 0 {
        -(mq as i128)
    } else {
        mq as i128
    }
}

/// Fixed-point product: the wide product scaled back down by `SCALE`,
/// truncated toward zero and saturated.
pub fn mul_fp(a: i64, b: i64) -> (r: i64)
    ensures
        r == sat64(tdiv(a as int * b as int, SCALE as int)),
{
    proof {
        assert(i128::MIN < a as int * b as int <= i128::MAX) by (nonlinear_arith)
            requires
                i64::MIN <= a <= i64::MAX,
                i64::MIN <= b <= i64::MAX,
        ;
    }
    let p: i128 = a as i128 * b as i128;
    sat_narrow(div_wide(p, SCALE as u128))
}

/// Truncating division, saturated (so that `i64::MIN / -1` is defined).
pub fn div_t(a: i64, b: i64) -> (r: i64)
    requires
        b != 0,
    ensures
        r == sat64(tdiv(a as int, b as int)),
{
    let ma = abs_u128(a);
    let mb = abs_u128(b);
    let mq = ma / mb;
    proof {
        assert(mq <= ma) by (nonlinear_arith)
            requires
                mq == ma as int / mb as int,
                mb >= 1,
                ma >= 0,
        ;
    }
    if (a < 0) != (b < 0) {
        sat_narrow(-(mq as i128))
    } else {
        sat_narrow(mq as i128)
    }
}

/// Truncating remainder (defined for every nonzero divisor).
pub fn rem_t(a: i64, b: i64) -> (r: i64)
    requires
        b != 0,
    ensures
        r == trem(a as int, b as int),
{
    let ma = abs_u128(a);
    let mb = abs_u128(b);
    let mr = ma % mb;
    proof {
        assert((ma as int % mb as int) >= 0 && (ma as int % mb as int) < mb as int)
            by (nonlinear_arith)
            requires
                mb >= 1,
                ma >= 0,
        ;
    }
    if a < 0 {
        -(mr as i128) as i64
    } else {
        mr as i64
    }
}

/// Fixed-point quotient: `a` rescaled by `SCALE`, divided by `b`,
/// truncated toward zero and saturated.
pub fn div_fp(a: i64, b: i64) -> (r: i64)
    requires
        b != 0,
    ensures
        r == sat64(tdiv(a as int * SCALE as int, b as int)),
{
    proof {
        assert(i128::MIN < a as int * SCALE as int <= i128::MAX) by (nonlinear_arith)
            requires
                i64::MIN <= a <= i64::MAX,
                SCALE == 1_000_000,
        ;
    }
    let p: i128 = a as i128 * SCALE as i128;
    let mp = abs_wide(p);
    let mb = abs_u128(b);
    let mq = mp / mb;
    proof {
        assert(mq <= mp) by (nonlinear_arith)
            requires
                mq == mp as int / mb as int,
                mb >= 1,
                mp >= 0,
        ;
    }
    if (p < 0) != (b < 0) {
        sat_narrow(-(mq as i128))
    } else {
        sat_narrow(mq as i128)
    }
}

/// The integer square root: the greatest `r` with `r * r <= n`
/// (and 0 below 0, where no square root exists).
pub open spec fn isqrt(n: int) -> int
    decreases n,
{
    if n < 1 {
        0
    } else if (isqrt(n - 1) + 1) * (isqrt(n - 1) + 1) <= n {
        isqrt(n - 1) + 1
    } else {
        isqrt(n - 1)
    }
}

/// `isqrt(n)` squares to at most `n`, and is the greatest such value.
pub proof fn lemma_isqrt_bounds(n: int)
    requires
        n >= 0,
    ensures
        isqrt(n) >= 0,
        isqrt(n) * isqrt(n) <= n,
        n < (isqrt(n) + 1) * (isqrt(n) + 1),
    decreases n,
{
    if n == 0 {
        assert(isqrt(0) == 0);
    } else {
        lemma_isqrt_bounds(n - 1);
        let r = isqrt(n - 1);
        if (r + 1) * (r + 1) <= n {
            assert(isqrt(n) == r + 1);
            assert(n <= (r + 1) * (r + 1));
            assert((r + 1) * (r + 1) < (r + 2) * (r + 2)) by (nonlinear_arith)
                requires
                    r >= 0,
            ;
        } else {
            assert(isqrt(n) == r);
        }
    }
}

/// A value that brackets `n` between its own square and the next one
/// is the integer square root of `n`.
pub proof fn lemma_isqrt_is(n: int, r: int)
    requires
        r >= 0,
        r * r <= n,
        n < (r + 1) * (r + 1),
    ensures
        isqrt(n) == r,
{
    assert(r * r >= 0) by (nonlinear_arith)
        requires
            r >= 0,
    ;
    lemma_isqrt_bounds(n);
    let s = isqrt(n);
    if s < r {
        assert((s + 1) * (s + 1) <= r * r) by (nonlinear_arith)
            requires
                s >= 0,
                s + 1 <= r,
        ;
    } else if r < s {
        assert((r + 1) * (r + 1) <= s * s) by (nonlinear_arith)
            requires
                r >= 0,
                r + 1 <= s,
        ;
    }
}

/// Anything at least `b * b` has an integer square root of at least `b`.
pub proof fn lemma_isqrt_at_least(n: int, b: int)
    requires
        b >= 0,
        n >= b * b,
    ensures
        isqrt(n) >= b,
{
    assert(b * b >= 0) by (nonlinear_arith)
        requires
            b >= 0,
    ;
    lemma_isqrt_bounds(n);
    let s = isqrt(n);
    if s < b {
        assert((s + 1) * (s + 1) <= b * b) by (nonlinear_arith)
            requires
                s >= 0,
                s + 1 <= b,
        ;
    }
}

/// Integer square root by bisection over the whole `u128` range.
pub fn isqrt_u128(n: u128) -> (r: u64)
    ensures
        r == isqrt(n as int),
{
    let mut lo: u128 = 0;
    let mut hi: u128 = 18446744073709551616;
    proof {
        assert((n as int) < 18446744073709551616 * 18446744073709551616);
    }
    while hi - lo > 1
        invariant
            lo < hi,
            hi <= 18446744073709551616u128,
            lo as int * lo as int <= n as int,
            (n as int) < hi as int * hi as int,
        decreases hi - lo,
    {
        let mid = lo + (hi - lo) / 2;
        proof {
            assert((mid as int) * (mid as int) < 340282366920938463463374607431768211455int)
                by (nonlinear_arith)
                requires
                    mid < 18446744073709551616u128,
            ;
        }
        if mid * mid <= n {
            lo = mid;
        } else {
            hi = mid;
        }
    }
    proof {
        lemma_isqrt_is(n as int, lo as int);
    }
    lo as u64
}

/// Clamp an unsigned value into the `i64` range.
pub fn sat_u64(r: u64) -> (s: i64)
    ensures
        s == sat64(r as int),
{
    if r > i64::MAX as u64 {
        i64::MAX
    } else {
        r as i64
    }
}

/// Fixed-point square root of a nonnegative value:
/// `isqrt` of the value rescaled by `SCALE`, so units are preserved.
pub fn sqrt_fp(x: i64) -> (r: i64)
    requires
        x >= 0,
    ensures
        r == sat64(isqrt(x as int * SCALE as int)),
{
    proof {
        assert((x as int) * (SCALE as int) < 340282366920938463463374607431768211455int)
            by (nonlinear_arith)
            requires
                0 <= x <= i64::MAX,
                SCALE == 1_000_000,
        ;
    }
    let w: u128 = (x as u128) * (SCALE as u128);
    let r = isqrt_u128(w);
    sat_u64(r)
}

/// The smaller of two values.
pub fn min_val(a: i64, b: i64) -> (r: i64)
    ensures
        r == spec_min(a, b),
{
    if a < b {
        a
    } else {
        b
    }
}

/// The larger of two values.
pub fn max_val(a: i64, b: i64) -> (r: i64)
    ensures
        r == spec_max(a, b),
{
    if a > b {
        a
    } else {
        b
    }
}

/// What `add_sat` returns.
pub open spec fn spec_add(a: i64, b: i64) -> i64 {
    sat64(a + b)
}

/// What `sub_sat` returns.
pub open spec fn spec_sub(a: i64, b: i64) -> i64 {
    sat64(a - b)
}

/// What `neg_sat` returns.
pub open spec fn spec_neg(a: i64) -> i64 {
    sat64(-a)
}

/// What `mul_fp` returns.
pub open spec fn spec_mul_fp(a: i64, b: i64) -> i64 {
    sat64(tdiv(a as int * b as int, SCALE as int))
}

/// What `div_t` returns.
pub open spec fn spec_div_t(a: i64, b: i64) -> i64 {
    sat64(tdiv(a as int, b as int))
}

/// What `div_fp` returns.
pub open spec fn spec_div_fp(a: i64, b: i64) -> i64 {
    sat64(tdiv(a as int * SCALE as int, b as int))
}

/// What `sqrt_fp` returns.
pub open spec fn spec_sqrt_fp(x: i64) -> i64 {
    sat64(isqrt(x as int * SCALE as int))
}

pub open spec fn spec_min(a: i64, b: i64) -> i64 {
    if a < b {
        a
    } else {
        b
    }
}

pub open spec fn spec_max(a: i64, b: i64) -> i64 {
    if a > b {
        a
    } else {
        b
    }
}

} // verus!

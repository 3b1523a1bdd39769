//! Laws of the vector algebra: how close the normalized image of a
//! vector comes to unit length, and how close the normalized cross
//! product stays to perpendicular.  Fixed-point truncation is the only
//! deviation in either case, and these lemmas bound it.

use vstd::prelude::*;

use crate::fixed::SCALE;
use crate::fixed::iabs;
use crate::fixed::isqrt;
use crate::fixed::lemma_isqrt_at_least;
use crate::fixed::lemma_isqrt_bounds;
use crate::fixed::sat64;
use crate::fixed::spec_mul_fp;
use crate::fixed::tdiv;
use crate::linalg::vec3::Vec3;
use crate::linalg::vec3::lemma_cross_orthogonal;
use crate::linalg::vec3::spec_cross_exact;

verus! {

/// With `f` the truncated quotient of `m * s` by `l`, the square of
/// `f * l` brackets the square of `m * s` to within `2 * m * s * l`.
proof fn lemma_scaled_quotient_bounds(m: int, l: int, s: int)
    requires
        0 <= m <= l,
        1 <= l,
        1 <= s,
    ensures
        0 <= (m * s) / l <= s,
        ((m * s) / l) * ((m * s) / l) * (l * l) <= (m * m) * (s * s),
        ((m * s) / l) * ((m * s) / l) * (l * l) >= (m * m) * (s * s) - 2 * ((m * s) * l),
{
    let f = (m * s) / l;
    assert(m * s >= 0) by (nonlinear_arith)
        requires
            m >= 0,
            s >= 0,
    ;
    vstd::arithmetic::div_mod::lemma_fundamental_div_mod(m * s, l);
    vstd::arithmetic::div_mod::lemma_mod_division_less_than_divisor(m * s, l);
    vstd::arithmetic::div_mod::lemma_div_pos_is_pos(m * s, l);
    assert(f * l <= m * s && m * s < f * l + l) by (nonlinear_arith)
        requires
            m * s == l * f + (m * s) % l,
            0 <= (m * s) % l < l,
    ;
    assert(f <= s) by (nonlinear_arith)
        requires
            f * l <= m * s,
            m <= l,
            l >= 1,
            s >= 0,
            f >= 0,
    ;
    assert(f * f * (l * l) <= (m * m) * (s * s)) by (nonlinear_arith)
        requires
            0 <= f * l,
            f * l <= m * s,
    ;
    assert(f * f * (l * l) >= (m * m) * (s * s) - 2 * ((m * s) * l)) by (nonlinear_arith)
        requires
            m * s < f * l + l,
            f >= 0,
            l >= 1,
            m * s >= 0,
    ;
}

/// The truncated fixed-point quotient of a signed component by the
/// (positive) length keeps the component's sign on the magnitude
/// quotient, so its square is the magnitude quotient's square.
proof fn lemma_component_square(x: int, l: int, s: int)
    requires
        1 <= l,
        1 <= s,
    ensures
        tdiv(x * s, l) * tdiv(x * s, l) == ((iabs(x) * s) / l) * ((iabs(x) * s) / l),
{
    assert(iabs(x * s) == iabs(x) * s) by (nonlinear_arith)
        requires
            s >= 1,
    ;
    let f = (iabs(x) * s) / l;
    if x >= 0 {
        assert(x * s >= 0) by (nonlinear_arith)
            requires
                x >= 0,
                s >= 1,
        ;
        assert(tdiv(x * s, l) == f);
    } else {
        assert(x * s < 0) by (nonlinear_arith)
            requires
                x < 0,
                s >= 1,
        ;
        assert(tdiv(x * s, l) == -f);
        assert((-f) * (-f) == f * f) by (nonlinear_arith);
    }
}

/// The truncated quotient of `m * s` by `l` undershoots the exact
/// ratio by less than one part in `l`, and never exceeds `s` when
/// `m` is at most `l`.
proof fn lemma_quotient_linear(m: int, l: int, s: int)
    requires
        0 <= m <= l,
        1 <= l,
        1 <= s,
    ensures
        0 <= (m * s) / l <= s,
        0 <= m * s - ((m * s) / l) * l < l,
{
    let f = (m * s) / l;
    assert(m * s >= 0) by (nonlinear_arith)
        requires
            m >= 0,
            s >= 0,
    ;
    vstd::arithmetic::div_mod::lemma_fundamental_div_mod(m * s, l);
    vstd::arithmetic::div_mod::lemma_mod_division_less_than_divisor(m * s, l);
    vstd::arithmetic::div_mod::lemma_div_pos_is_pos(m * s, l);
    assert(m * s - f * l == (m * s) % l) by (nonlinear_arith)
        requires
            m * s == l * f + (m * s) % l,
    ;
    assert(f <= s) by (nonlinear_arith)
        requires
            f * l <= m * s,
            m <= l,
            l >= 1,
            s >= 0,
            f >= 0,
    ;
}

/// Each component of a normalized vector, rescaled by the vector's
/// length, lands within one length-unit of the component rescaled by
/// `SCALE`; and no component of the normalized vector exceeds `SCALE`.
proof fn lemma_normalized_component_error(v: Vec3)
    requires
        v.spec_len() >= 1,
        isqrt(v.spec_len_sq()) <= i64::MAX,
    ensures
        iabs(v.spec_normalized().x as int) <= SCALE,
        iabs(v.spec_normalized().y as int) <= SCALE,
        iabs(v.spec_normalized().z as int) <= SCALE,
        iabs(
            v.spec_normalized().x as int * isqrt(v.spec_len_sq()) - v.x as int * SCALE,
        ) < isqrt(v.spec_len_sq()),
        iabs(
            v.spec_normalized().y as int * isqrt(v.spec_len_sq()) - v.y as int * SCALE,
        ) < isqrt(v.spec_len_sq()),
        iabs(
            v.spec_normalized().z as int * isqrt(v.spec_len_sq()) - v.z as int * SCALE,
        ) < isqrt(v.spec_len_sq()),
{
    let s = SCALE as int;
    let q = v.spec_len_sq();
    let mx = iabs(v.x as int);
    let my = iabs(v.y as int);
    let mz = iabs(v.z as int);
    assert(mx * mx == v.x * v.x && my * my == v.y * v.y && mz * mz == v.z * v.z && mx * mx >= 0
        && my * my >= 0 && mz * mz >= 0) by (nonlinear_arith)
        requires
            mx == iabs(v.x as int),
            my == iabs(v.y as int),
            mz == iabs(v.z as int),
    ;
    lemma_isqrt_bounds(q);
    let l = isqrt(q);
    assert(v.spec_len() == l);
    assert(mx <= l && my <= l && mz <= l) by (nonlinear_arith)
        requires
            mx * mx <= q,
            my * my <= q,
            mz * mz <= q,
            q < (l + 1) * (l + 1),
            l >= 0,
            mx >= 0,
            my >= 0,
            mz >= 0,
    ;
    lemma_quotient_linear(mx, l, s);
    lemma_quotient_linear(my, l, s);
    lemma_quotient_linear(mz, l, s);
    assert(iabs(v.x as int * s) == mx * s && iabs(v.y as int * s) == my * s && iabs(
        v.z as int * s,
    ) == mz * s) by (nonlinear_arith)
        requires
            s >= 1,
            mx == iabs(v.x as int),
            my == iabs(v.y as int),
            mz == iabs(v.z as int),
    ;
    let n = v.spec_normalized();
    assert(n.x as int == if v.x >= 0 {
        (mx * s) / l
    } else {
        -((mx * s) / l)
    });
    assert(iabs(n.x as int * l - v.x as int * s) < l) by (nonlinear_arith)
        requires
            0 <= mx * s - ((mx * s) / l) * l < l,
            n.x as int == (if v.x >= 0 {
                (mx * s) / l
            } else {
                -((mx * s) / l)
            }),
            mx == iabs(v.x as int),
            s >= 1,
    ;
    assert(iabs(n.y as int * l - v.y as int * s) < l) by (nonlinear_arith)
        requires
            0 <= my * s - ((my * s) / l) * l < l,
            n.y as int == (if v.y >= 0 {
                (my * s) / l
            } else {
                -((my * s) / l)
            }),
            my == iabs(v.y as int),
            s >= 1,
    ;
    assert(iabs(n.z as int * l - v.z as int * s) < l) by (nonlinear_arith)
        requires
            0 <= mz * s - ((mz * s) / l) * l < l,
            n.z as int == (if v.z >= 0 {
                (mz * s) / l
            } else {
                -((mz * s) / l)
            }),
            mz == iabs(v.z as int),
            s >= 1,
    ;
}

/// A normalized vector has unit length to within a few millionths:
/// for a vector at least one long, whose length did not saturate, the
/// length of its normalized image lies in `[SCALE - 4, SCALE + 1]`.
/// (A vector much shorter than one normalizes more coarsely — the
/// truncation is amplified by one over its length — and the zero
/// vector, whose direction is undefined, stays the zero vector.)
pub proof fn lemma_normalized_unit_length(v: Vec3)
    requires
        v.spec_len() >= SCALE,
        isqrt(v.spec_len_sq()) <= i64::MAX,
    ensures
        SCALE - 4 <= v.spec_normalized().spec_len() <= SCALE + 1,
{
    let s = SCALE as int;
    let q = v.spec_len_sq();
    let mx = iabs(v.x as int);
    let my = iabs(v.y as int);
    let mz = iabs(v.z as int);
    // Magnitudes square to the components' squares, and squares are
    // nonnegative.
    assert(mx * mx == v.x * v.x && my * my == v.y * v.y && mz * mz == v.z * v.z && mx * mx >= 0
        && my * my >= 0 && mz * mz >= 0) by (nonlinear_arith)
        requires
            mx == iabs(v.x as int),
            my == iabs(v.y as int),
            mz == iabs(v.z as int),
    ;
    assert(q == mx * mx + my * my + mz * mz);
    assert(q >= 0);
    lemma_isqrt_bounds(q);
    let l = isqrt(q);
    assert(v.spec_len() == l);
    assert(l >= s);
    // Each component's magnitude is at most the length.
    assert(mx <= l && my <= l && mz <= l) by (nonlinear_arith)
        requires
            mx * mx <= q,
            my * my <= q,
            mz * mz <= q,
            q < (l + 1) * (l + 1),
            l >= 0,
            mx >= 0,
            my >= 0,
            mz >= 0,
    ;
    // The truncated quotients and their squares.
    let fx = (mx * s) / l;
    let fy = (my * s) / l;
    let fz = (mz * s) / l;
    lemma_scaled_quotient_bounds(mx, l, s);
    lemma_scaled_quotient_bounds(my, l, s);
    lemma_scaled_quotient_bounds(mz, l, s);
    lemma_component_square(v.x as int, l, s);
    lemma_component_square(v.y as int, l, s);
    lemma_component_square(v.z as int, l, s);
    // The normalized components are those quotients, unsaturated.
    let n = v.spec_normalized();
    assert(iabs(tdiv(v.x as int * s, l)) == fx && iabs(tdiv(v.y as int * s, l)) == fy && iabs(
        tdiv(v.z as int * s, l),
    ) == fz) by {
        assert(iabs(v.x as int * s) == mx * s && iabs(v.y as int * s) == my * s && iabs(
            v.z as int * s,
        ) == mz * s) by (nonlinear_arith)
            requires
                s >= 1,
                mx == iabs(v.x as int),
                my == iabs(v.y as int),
                mz == iabs(v.z as int),
        ;
    }
    assert(n.x as int * n.x == fx * fx && n.y as int * n.y == fy * fy && n.z as int * n.z == fz
        * fz);
    let qn = n.spec_len_sq();
    assert(qn == fx * fx + fy * fy + fz * fz);
    assert(qn >= 0) by (nonlinear_arith)
        requires
            qn == fx * fx + fy * fy + fz * fz,
    ;
    // Distribute the two sums of squares over the square factors.
    assert(qn * (l * l) == fx * fx * (l * l) + fy * fy * (l * l) + fz * fz * (l * l))
        by (nonlinear_arith)
        requires
            qn == fx * fx + fy * fy + fz * fz,
    ;
    assert(q * (s * s) == (mx * mx) * (s * s) + (my * my) * (s * s) + (mz * mz) * (s * s))
        by (nonlinear_arith)
        requires
            q == mx * mx + my * my + mz * mz,
    ;
    // Upper bound: qn * l^2 <= q * s^2, and l >= s forces qn < (s+2)^2.
    assert(qn * (l * l) <= q * (s * s));
    assert(qn < (s + 2) * (s + 2)) by (nonlinear_arith)
        requires
            qn * (l * l) <= q * (s * s),
            q < (l + 1) * (l + 1),
            l >= s,
            s >= 2,
            qn >= 0,
            l >= 1,
    ;
    // Lower bound: qn * l^2 >= q * s^2 - 6 * s * l^2 >= (s^2 - 6s) * l^2.
    assert(qn * (l * l) >= q * (s * s) - 2 * ((mx * s) * l) - 2 * ((my * s) * l) - 2 * ((mz * s)
        * l));
    assert(2 * ((mx * s) * l) <= 2 * (s * (l * l)) && 2 * ((my * s) * l) <= 2 * (s * (l * l)) && 2
        * ((mz * s) * l) <= 2 * (s * (l * l))) by (nonlinear_arith)
        requires
            0 <= mx <= l,
            0 <= my <= l,
            0 <= mz <= l,
            s >= 1,
            l >= 1,
    ;
    assert(q * (s * s) >= (l * l) * (s * s)) by (nonlinear_arith)
        requires
            q >= l * l,
            s >= 1,
    ;
    assert(qn * (l * l) >= (l * l) * (s * s) - 6 * (s * (l * l)));
    assert((l * l) * (s * s) - 6 * (s * (l * l)) == (s * s - 6 * s) * (l * l))
        by (nonlinear_arith);
    assert(qn >= s * s - 6 * s) by (nonlinear_arith)
        requires
            qn * (l * l) >= (s * s - 6 * s) * (l * l),
            l >= 1,
    ;
    // Squeeze the square root.
    assert((s - 4) * (s - 4) <= s * s - 6 * s) by (nonlinear_arith)
        requires
            s >= 8,
    ;
    lemma_isqrt_at_least(qn, s - 4);
    lemma_isqrt_bounds(qn);
    assert(isqrt(qn) <= s + 1) by (nonlinear_arith)
        requires
            isqrt(qn) * isqrt(qn) <= qn,
            qn < (s + 2) * (s + 2),
            isqrt(qn) >= 0,
            s >= 0,
    ;
    assert(n.spec_len() == sat64(isqrt(qn)));
    assert(v.spec_normalized().spec_len() == isqrt(qn));
}

/// A fixed-point product with one factor of at most unit size stays
/// within the other factor's magnitude, and within one `SCALE` of the
/// exact product.
proof fn lemma_mul_fp_error(u: i64, w: i64)
    requires
        iabs(u as int) <= SCALE,
        iabs(w as int) <= i64::MAX / 2,
    ensures
        iabs(spec_mul_fp(u, w) as int) <= iabs(w as int),
        iabs(spec_mul_fp(u, w) as int * SCALE - u as int * w as int) < SCALE,
{
    let s = SCALE as int;
    let mu = iabs(u as int);
    let mw = iabs(w as int);
    let p = u as int * w as int;
    assert(iabs(p) == mu * mw && mu * mw >= 0) by (nonlinear_arith)
        requires
            mu == iabs(u as int),
            mw == iabs(w as int),
            p == u as int * w as int,
    ;
    let f = (mu * mw) / s;
    vstd::arithmetic::div_mod::lemma_fundamental_div_mod(mu * mw, s);
    vstd::arithmetic::div_mod::lemma_mod_division_less_than_divisor(mu * mw, s);
    vstd::arithmetic::div_mod::lemma_div_pos_is_pos(mu * mw, s);
    assert(0 <= mu * mw - f * s < s) by (nonlinear_arith)
        requires
            mu * mw == s * f + (mu * mw) % s,
            0 <= (mu * mw) % s < s,
    ;
    assert(f <= mw) by (nonlinear_arith)
        requires
            f * s <= mu * mw,
            mu <= s,
            s >= 1,
            mw >= 0,
            f >= 0,
    ;
    assert(tdiv(p, s) == if p >= 0 {
        f
    } else {
        -f
    });
    assert(spec_mul_fp(u, w) == sat64(tdiv(p, s)));
    assert(iabs(sat64(tdiv(p, s)) as int * s - p) < s) by (nonlinear_arith)
        requires
            iabs(p) == mu * mw,
            0 <= mu * mw - f * s < s,
            0 <= f <= mw,
            mw <= i64::MAX / 2,
            sat64(tdiv(p, s)) as int == (if p >= 0 {
                f
            } else {
                -f
            }),
            s >= 1,
    ;
}

/// Each component of the fixed-point cross product lands within two
/// `SCALE` of the exact cross product, when the first factor has
/// components of at most unit size and the second stays under half the
/// representable range.
proof fn lemma_cross_component_error(a: Vec3, b: Vec3)
    requires
        iabs(a.x as int) <= SCALE,
        iabs(a.y as int) <= SCALE,
        iabs(a.z as int) <= SCALE,
        iabs(b.x as int) <= i64::MAX / 2,
        iabs(b.y as int) <= i64::MAX / 2,
        iabs(b.z as int) <= i64::MAX / 2,
    ensures
        iabs(a.spec_cross(b).x as int * SCALE - spec_cross_exact(a, b).0) < 2 * SCALE,
        iabs(a.spec_cross(b).y as int * SCALE - spec_cross_exact(a, b).1) < 2 * SCALE,
        iabs(a.spec_cross(b).z as int * SCALE - spec_cross_exact(a, b).2) < 2 * SCALE,
{
    let s = SCALE as int;
    lemma_mul_fp_error(a.y, b.z);
    lemma_mul_fp_error(a.z, b.y);
    lemma_mul_fp_error(a.z, b.x);
    lemma_mul_fp_error(a.x, b.z);
    lemma_mul_fp_error(a.x, b.y);
    lemma_mul_fp_error(a.y, b.x);
    let c = a.spec_cross(b);
    let half = i64::MAX / 2;
    let mx1 = spec_mul_fp(a.y, b.z);
    let mx2 = spec_mul_fp(a.z, b.y);
    assert(-half <= mx1 <= half && -half <= mx2 <= half);
    assert(c.x == sat64(mx1 - mx2));
    assert(c.x as int == mx1 - mx2);
    let my1 = spec_mul_fp(a.z, b.x);
    let my2 = spec_mul_fp(a.x, b.z);
    assert(-half <= my1 <= half && -half <= my2 <= half);
    assert(c.y == sat64(my1 - my2));
    assert(c.y as int == my1 - my2);
    let mz1 = spec_mul_fp(a.x, b.y);
    let mz2 = spec_mul_fp(a.y, b.x);
    assert(-half <= mz1 <= half && -half <= mz2 <= half);
    assert(c.z == sat64(mz1 - mz2));
    assert(c.z as int == mz1 - mz2);
    assert((mx1 - mx2) * s == mx1 * s - mx2 * s) by (nonlinear_arith);
    assert((my1 - my2) * s == my1 * s - my2 * s) by (nonlinear_arith);
    assert((mz1 - mz2) * s == mz1 * s - mz2 * s) by (nonlinear_arith);
}

/// Normalizing hardly moves a dot product: if the exact dot of `c`
/// with a unit-sized `w` is at most `k` units, the fixed-point dot of
/// `c`'s normalized image with `w` is at most `k + 6` millionths.
proof fn lemma_normalized_dot_error(c: Vec3, w: Vec3, k: int)
    requires
        iabs(w.x as int) <= SCALE,
        iabs(w.y as int) <= SCALE,
        iabs(w.z as int) <= SCALE,
        c.spec_len() >= SCALE,
        isqrt(c.spec_len_sq()) <= i64::MAX,
        iabs(c.x as int * w.x + c.y as int * w.y + c.z as int * w.z) <= k * SCALE,
        k >= 0,
    ensures
        iabs(c.spec_normalized().spec_dot(w) as int) <= k + 6,
{
    let s = SCALE as int;
    let l = isqrt(c.spec_len_sq());
    let n = c.spec_normalized();
    lemma_normalized_component_error(c);
    assert(l >= s);
    let dc = c.x as int * w.x + c.y as int * w.y + c.z as int * w.z;
    let dn = n.x as int * w.x + n.y as int * w.y + n.z as int * w.z;
    let dx = n.x as int * l - c.x as int * s;
    let dy = n.y as int * l - c.y as int * s;
    let dz = n.z as int * l - c.z as int * s;
    // dn * l unfolds to s * dc plus three small correction terms,
    // one ring identity per component.
    assert(dn * l == (n.x as int * w.x) * l + (n.y as int * w.y) * l + (n.z as int * w.z) * l)
        by (nonlinear_arith)
        requires
            dn == n.x as int * w.x + n.y as int * w.y + n.z as int * w.z,
    ;
    assert(dc * s == (c.x as int * w.x) * s + (c.y as int * w.y) * s + (c.z as int * w.z) * s)
        by (nonlinear_arith)
        requires
            dc == c.x as int * w.x + c.y as int * w.y + c.z as int * w.z,
    ;
    assert((n.x as int * w.x) * l == (c.x as int * w.x) * s + dx * (w.x as int))
        by (nonlinear_arith)
        requires
            dx == n.x as int * l - c.x as int * s,
    ;
    assert((n.y as int * w.y) * l == (c.y as int * w.y) * s + dy * (w.y as int))
        by (nonlinear_arith)
        requires
            dy == n.y as int * l - c.y as int * s,
    ;
    assert((n.z as int * w.z) * l == (c.z as int * w.z) * s + dz * (w.z as int))
        by (nonlinear_arith)
        requires
            dz == n.z as int * l - c.z as int * s,
    ;
    assert(dn * l == dc * s + dx * (w.x as int) + dy * (w.y as int) + dz * (w.z as int));
    assert(iabs(dx * (w.x as int)) <= l * s && iabs(dy * (w.y as int)) <= l * s && iabs(
        dz * (w.z as int),
    ) <= l * s) by (nonlinear_arith)
        requires
            iabs(dx) < l,
            iabs(dy) < l,
            iabs(dz) < l,
            iabs(w.x as int) <= s,
            iabs(w.y as int) <= s,
            iabs(w.z as int) <= s,
            l >= 1,
            s >= 1,
    ;
    assert(iabs(dc * s) <= (k * s) * s) by (nonlinear_arith)
        requires
            iabs(dc) <= k * s,
            s >= 1,
    ;
    assert((k * s) * s <= (k * s) * l && l * s >= 0) by (nonlinear_arith)
        requires
            s <= l,
            k >= 0,
            s >= 1,
    ;
    assert(iabs(dn * l) <= (k * s) * l + 3 * (l * s));
    assert(iabs(dn) * l == iabs(dn * l)) by (nonlinear_arith)
        requires
            l >= 1,
    ;
    assert((k * s) * l + 3 * (l * s) == ((k + 3) * s) * l) by (nonlinear_arith);
    assert(iabs(dn) <= (k + 3) * s) by (nonlinear_arith)
        requires
            iabs(dn) * l <= ((k + 3) * s) * l,
            l >= 1,
    ;
    // The fixed-point dot truncates each product by under one unit.
    lemma_mul_fp_error(n.x, w.x);
    lemma_mul_fp_error(n.y, w.y);
    lemma_mul_fp_error(n.z, w.z);
    let px = spec_mul_fp(n.x, w.x);
    let py = spec_mul_fp(n.y, w.y);
    let pz = spec_mul_fp(n.z, w.z);
    assert(iabs(px as int) <= s && iabs(py as int) <= s && iabs(pz as int) <= s);
    assert(n.spec_dot(w) == sat64(sat64(px + py) + pz));
    assert(n.spec_dot(w) as int == px + py + pz);
    assert(iabs((px + py + pz) * s - dn) < 3 * s) by (nonlinear_arith)
        requires
            iabs(px as int * s - n.x as int * w.x) < s,
            iabs(py as int * s - n.y as int * w.y) < s,
            iabs(pz as int * s - n.z as int * w.z) < s,
            dn == n.x as int * w.x + n.y as int * w.y + n.z as int * w.z,
    ;
    assert(iabs(n.spec_dot(w) as int) <= k + 6) by (nonlinear_arith)
        requires
            iabs((px + py + pz) * s - dn) < 3 * s,
            iabs(dn) <= (k + 3) * s,
            n.spec_dot(w) as int == px + py + pz,
            s >= 1,
            k >= 0,
    ;
}

/// The normalized cross product is orthogonal to its factors, in fixed
/// point, to within twelve millionths.  This is how the camera's basis
/// comes out orthogonal: `right` is the normalized cross of the unit
/// `forward` with the caller's up hint, and the recomputed `up` is the
/// normalized cross of `right` with `forward` — each a normalized
/// cross with a unit-sized first factor, as required here.  The second
/// factor may be any vector under half the representable range; when
/// it too is unit-sized (as `forward` is in the second use), the
/// normalized cross is near-orthogonal to it as well.
pub proof fn lemma_normalized_cross_orthogonal(a: Vec3, b: Vec3)
    requires
        iabs(a.x as int) <= SCALE,
        iabs(a.y as int) <= SCALE,
        iabs(a.z as int) <= SCALE,
        iabs(b.x as int) <= i64::MAX / 2,
        iabs(b.y as int) <= i64::MAX / 2,
        iabs(b.z as int) <= i64::MAX / 2,
        a.spec_cross(b).spec_len() >= SCALE,
        isqrt(a.spec_cross(b).spec_len_sq()) <= i64::MAX,
    ensures
        iabs(a.spec_cross(b).spec_normalized().spec_dot(a) as int) <= 12,
        iabs(b.x as int) <= SCALE && iabs(b.y as int) <= SCALE && iabs(b.z as int) <= SCALE
            ==> iabs(a.spec_cross(b).spec_normalized().spec_dot(b) as int) <= 12,
{
    let s = SCALE as int;
    let c = a.spec_cross(b);
    let e = spec_cross_exact(a, b);
    lemma_cross_orthogonal(a, b);
    lemma_cross_component_error(a, b);
    let ex = c.x as int * s - e.0;
    let ey = c.y as int * s - e.1;
    let ez = c.z as int * s - e.2;
    let dca = c.x as int * a.x + c.y as int * a.y + c.z as int * a.z;
    assert(dca * s == (c.x as int * a.x) * s + (c.y as int * a.y) * s + (c.z as int * a.z) * s)
        by (nonlinear_arith)
        requires
            dca == c.x as int * a.x + c.y as int * a.y + c.z as int * a.z,
    ;
    assert((c.x as int * a.x) * s == e.0 * a.x + ex * (a.x as int)) by (nonlinear_arith)
        requires
            ex == c.x as int * s - e.0,
    ;
    assert((c.y as int * a.y) * s == e.1 * a.y + ey * (a.y as int)) by (nonlinear_arith)
        requires
            ey == c.y as int * s - e.1,
    ;
    assert((c.z as int * a.z) * s == e.2 * a.z + ez * (a.z as int)) by (nonlinear_arith)
        requires
            ez == c.z as int * s - e.2,
    ;
    assert(dca * s == (e.0 * a.x + e.1 * a.y + e.2 * a.z) + (ex * (a.x as int) + ey * (
    a.y as int) + ez * (a.z as int)));
    assert(iabs(ex * (a.x as int)) <= (2 * s) * s && iabs(ey * (a.y as int)) <= (2 * s) * s
        && iabs(ez * (a.z as int)) <= (2 * s) * s) by (nonlinear_arith)
        requires
            iabs(ex) < 2 * s,
            iabs(ey) < 2 * s,
            iabs(ez) < 2 * s,
            iabs(a.x as int) <= s,
            iabs(a.y as int) <= s,
            iabs(a.z as int) <= s,
            s >= 1,
    ;
    assert(e.0 * a.x + e.1 * a.y + e.2 * a.z == 0);
    assert(iabs(dca * s) <= 6 * (s * s));
    assert(iabs(dca * s) == iabs(dca) * s) by (nonlinear_arith)
        requires
            s >= 1,
    ;
    assert(iabs(dca) <= 6 * s) by (nonlinear_arith)
        requires
            iabs(dca * s) <= 6 * (s * s),
            iabs(dca * s) == iabs(dca) * s,
            s >= 1,
    ;
    lemma_normalized_dot_error(c, a, 6);
    if iabs(b.x as int) <= s && iabs(b.y as int) <= s && iabs(b.z as int) <= s {
        let dcb = c.x as int * b.x + c.y as int * b.y + c.z as int * b.z;
        assert(dcb * s == (c.x as int * b.x) * s + (c.y as int * b.y) * s + (c.z as int * b.z)
            * s) by (nonlinear_arith)
            requires
                dcb == c.x as int * b.x + c.y as int * b.y + c.z as int * b.z,
        ;
        assert((c.x as int * b.x) * s == e.0 * b.x + ex * (b.x as int)) by (nonlinear_arith)
            requires
                ex == c.x as int * s - e.0,
        ;
        assert((c.y as int * b.y) * s == e.1 * b.y + ey * (b.y as int)) by (nonlinear_arith)
            requires
                ey == c.y as int * s - e.1,
        ;
        assert((c.z as int * b.z) * s == e.2 * b.z + ez * (b.z as int)) by (nonlinear_arith)
            requires
                ez == c.z as int * s - e.2,
        ;
        assert(dcb * s == (e.0 * b.x + e.1 * b.y + e.2 * b.z) + (ex * (b.x as int) + ey * (
        b.y as int) + ez * (b.z as int)));
        assert(iabs(ex * (b.x as int)) <= (2 * s) * s && iabs(ey * (b.y as int)) <= (2 * s) * s
            && iabs(ez * (b.z as int)) <= (2 * s) * s) by (nonlinear_arith)
            requires
                iabs(ex) < 2 * s,
                iabs(ey) < 2 * s,
                iabs(ez) < 2 * s,
                iabs(b.x as int) <= s,
                iabs(b.y as int) <= s,
                iabs(b.z as int) <= s,
                s >= 1,
        ;
        assert(e.0 * b.x + e.1 * b.y + e.2 * b.z == 0);
        assert(iabs(dcb * s) <= 6 * (s * s));
        assert(iabs(dcb * s) == iabs(dcb) * s) by (nonlinear_arith)
            requires
                s >= 1,
        ;
        assert(iabs(dcb) <= 6 * s) by (nonlinear_arith)
            requires
                iabs(dcb * s) <= 6 * (s * s),
                iabs(dcb * s) == iabs(dcb) * s,
                s >= 1,
        ;
        lemma_normalized_dot_error(c, b, 6);
    }
}

} // verus!

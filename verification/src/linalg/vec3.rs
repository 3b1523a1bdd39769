//! Three-component vectors in fixed point.
//!
//! The workhorse of the renderer: points, directions and half-extents are
//! all `Vec3` values.  Every operation is the saturating fixed-point image
//! of the usual real-vector formula, and its contract states the result
//! exactly, component by component.

use vstd::prelude::*;

use crate::fixed::abs_sat;
use crate::fixed::add_sat;
use crate::fixed::div_fp;
use crate::fixed::iabs;
use crate::fixed::isqrt;
use crate::fixed::isqrt_u128;
use crate::fixed::max_val;
use crate::fixed::min_val;
use crate::fixed::mul_fp;
use crate::fixed::neg_sat;
use crate::fixed::rem_t;
use crate::fixed::sat64;
use crate::fixed::sat_u64;
use crate::fixed::spec_add;
use crate::fixed::spec_div_fp;
use crate::fixed::spec_max;
use crate::fixed::spec_min;
use crate::fixed::spec_mul_fp;
use crate::fixed::spec_neg;
use crate::fixed::spec_sub;
use crate::fixed::square_u128;
use crate::fixed::sub_sat;
use crate::fixed::trem;
use crate::linalg::vec2::Vec2;

verus! {

/// A vector (or point) in three-space, in fixed-point millionths.
#[derive(Clone, Copy, Debug, PartialEq, Eq, Structural)]
pub struct Vec3 {
    pub x: i64,
    pub y: i64,
    pub z: i64,
}

impl Vec3 {
    /// The squared length, exact (never saturated).
    pub open spec fn spec_len_sq(self) -> int {
        self.x * self.x + self.y * self.y + self.z * self.z
    }

    /// The length: the integer square root of the squared length.
    pub open spec fn spec_len(self) -> i64 {
        sat64(isqrt(self.spec_len_sq()))
    }

    /// Componentwise saturating sum.
    pub open spec fn spec_add(self, o: Vec3) -> Vec3 {
        Vec3 { x: spec_add(self.x, o.x), y: spec_add(self.y, o.y), z: spec_add(self.z, o.z) }
    }

    /// Componentwise saturating difference.
    pub open spec fn spec_sub(self, o: Vec3) -> Vec3 {
        Vec3 { x: spec_sub(self.x, o.x), y: spec_sub(self.y, o.y), z: spec_sub(self.z, o.z) }
    }

    /// Componentwise negation.
    pub open spec fn spec_neg(self) -> Vec3 {
        Vec3 { x: spec_neg(self.x), y: spec_neg(self.y), z: spec_neg(self.z) }
    }

    /// Componentwise fixed-point product with a scalar.
    pub open spec fn spec_scale(self, s: i64) -> Vec3 {
        Vec3 {
            x: spec_mul_fp(self.x, s),
            y: spec_mul_fp(self.y, s),
            z: spec_mul_fp(self.z, s),
        }
    }

    /// Componentwise magnitude.
    pub open spec fn spec_abs(self) -> Vec3 {
        Vec3 {
            x: sat64(iabs(self.x as int)),
            y: sat64(iabs(self.y as int)),
            z: sat64(iabs(self.z as int)),
        }
    }

    /// Componentwise minimum against a scalar.
    pub open spec fn spec_min(self, num: i64) -> Vec3 {
        Vec3 { x: spec_min(self.x, num), y: spec_min(self.y, num), z: spec_min(self.z, num) }
    }

    /// Componentwise maximum against a scalar.
    pub open spec fn spec_max(self, num: i64) -> Vec3 {
        Vec3 { x: spec_max(self.x, num), y: spec_max(self.y, num), z: spec_max(self.z, num) }
    }

    /// The fixed-point dot product, folded left to right.
    pub open spec fn spec_dot(self, o: Vec3) -> i64 {
        spec_add(
            spec_add(spec_mul_fp(self.x, o.x), spec_mul_fp(self.y, o.y)),
            spec_mul_fp(self.z, o.z),
        )
    }

    /// The fixed-point cross product.
    pub open spec fn spec_cross(self, o: Vec3) -> Vec3 {
        Vec3 {
            x: spec_sub(spec_mul_fp(self.y, o.z), spec_mul_fp(self.z, o.y)),
            y: spec_sub(spec_mul_fp(self.z, o.x), spec_mul_fp(self.x, o.z)),
            z: spec_sub(spec_mul_fp(self.x, o.y), spec_mul_fp(self.y, o.x)),
        }
    }

    /// The direction of the vector at unit length: each component divided
    /// by the length.  The zero vector, whose direction is undefined, is
    /// sent to itself.
    pub open spec fn spec_normalized(self) -> Vec3 {
        let l = self.spec_len();
        if l == 0 {
            Vec3 { x: 0, y: 0, z: 0 }
        } else {
            Vec3 {
                x: spec_div_fp(self.x, l),
                y: spec_div_fp(self.y, l),
                z: spec_div_fp(self.z, l),
            }
        }
    }

    pub fn new(x: i64, y: i64, z: i64) -> (v: Vec3)
        ensures
            v == (Vec3 { x, y, z }),
    {
        Vec3 { x, y, z }
    }

    /// The Euclidean length.
    pub fn len(&self) -> (r: i64)
        ensures
            r == self.spec_len(),
    {
        let xx = square_u128(self.x);
        let yy = square_u128(self.y);
        let zz = square_u128(self.z);
        let s: u128 = xx + yy + zz;
        sat_u64(isqrt_u128(s))
    }

    /// The vector scaled to unit length (the zero vector stays put).
    pub fn normalized(&self) -> (r: Vec3)
        ensures
            r == self.spec_normalized(),
    {
        let l = self.len();
        if l == 0 {
            Vec3 { x: 0, y: 0, z: 0 }
        } else {
            Vec3 { x: div_fp(self.x, l), y: div_fp(self.y, l), z: div_fp(self.z, l) }
        }
    }

    /// The dot product.
    pub fn dot(&self, other: &Vec3) -> (r: i64)
        ensures
            r == self.spec_dot(*other),
    {
        add_sat(
            add_sat(mul_fp(self.x, other.x), mul_fp(self.y, other.y)),
            mul_fp(self.z, other.z),
        )
    }

    /// The cross product.
    pub fn cross(&self, other: &Vec3) -> (r: Vec3)
        ensures
            r == self.spec_cross(*other),
    {
        Vec3 {
            x: sub_sat(mul_fp(self.y, other.z), mul_fp(self.z, other.y)),
            y: sub_sat(mul_fp(self.z, other.x), mul_fp(self.x, other.z)),
            z: sub_sat(mul_fp(self.x, other.y), mul_fp(self.y, other.x)),
        }
    }

    /// Componentwise magnitude.
    pub fn abs(&self) -> (r: Vec3)
        ensures
            r == self.spec_abs(),
    {
        Vec3 { x: abs_sat(self.x), y: abs_sat(self.y), z: abs_sat(self.z) }
    }

    /// Componentwise minimum against a scalar.
    pub fn min(&self, num: i64) -> (r: Vec3)
        ensures
            r == self.spec_min(num),
    {
        Vec3 { x: min_val(self.x, num), y: min_val(self.y, num), z: min_val(self.z, num) }
    }

    /// Componentwise maximum against a scalar.
    pub fn max(&self, num: i64) -> (r: Vec3)
        ensures
            r == self.spec_max(num),
    {
        Vec3 { x: max_val(self.x, num), y: max_val(self.y, num), z: max_val(self.z, num) }
    }

    /// Components clamped into `[lower, upper]`.
    pub fn clamp(&self, lower: i64, upper: i64) -> (r: Vec3)
        ensures
            r == self.spec_max(lower).spec_min(upper),
    {
        self.max(lower).min(upper)
    }

    /// Components reduced to `[0, |modulus|)` by a double truncating
    /// remainder, as `((v % m) + m) % m` computes it.
    pub fn modulo(&self, modulus: i64) -> (r: Vec3)
        requires
            modulus != 0,
        ensures
            r == self.spec_modulo(modulus),
    {
        Vec3 {
            x: rem_t(add_sat(rem_t(self.x, modulus), modulus), modulus),
            y: rem_t(add_sat(rem_t(self.y, modulus), modulus), modulus),
            z: rem_t(add_sat(rem_t(self.z, modulus), modulus), modulus),
        }
    }

    /// What `modulo` returns.
    pub open spec fn spec_modulo(self, m: i64) -> Vec3 {
        Vec3 {
            x: trem(spec_add(sat64(trem(self.x as int, m as int)), m) as int, m as int) as i64,
            y: trem(spec_add(sat64(trem(self.y as int, m as int)), m) as int, m as int) as i64,
            z: trem(spec_add(sat64(trem(self.z as int, m as int)), m) as int, m as int) as i64,
        }
    }

    /// Componentwise negation.
    pub fn neg(&self) -> (r: Vec3)
        ensures
            r == self.spec_neg(),
    {
        Vec3 { x: neg_sat(self.x), y: neg_sat(self.y), z: neg_sat(self.z) }
    }

    /// Componentwise saturating sum.
    pub fn add(&self, other: &Vec3) -> (r: Vec3)
        ensures
            r == self.spec_add(*other),
    {
        Vec3 {
            x: add_sat(self.x, other.x),
            y: add_sat(self.y, other.y),
            z: add_sat(self.z, other.z),
        }
    }

    /// Componentwise saturating difference.
    pub fn sub(&self, other: &Vec3) -> (r: Vec3)
        ensures
            r == self.spec_sub(*other),
    {
        Vec3 {
            x: sub_sat(self.x, other.x),
            y: sub_sat(self.y, other.y),
            z: sub_sat(self.z, other.z),
        }
    }

    /// Componentwise fixed-point product with a scalar.
    pub fn scale(&self, s: i64) -> (r: Vec3)
        ensures
            r == self.spec_scale(s),
    {
        Vec3 { x: mul_fp(self.x, s), y: mul_fp(self.y, s), z: mul_fp(self.z, s) }
    }

    /// The y and x components, in that order.
    pub fn yx(&self) -> (r: Vec2)
        ensures
            r == (Vec2 { x: self.y, y: self.x }),
    {
        Vec2 { x: self.y, y: self.x }
    }
}

/// The products behind the cross formula before any fixed-point
/// rounding: the cross of `a` and `b` as exact mathematical integers.
pub open spec fn spec_cross_exact(a: Vec3, b: Vec3) -> (int, int, int) {
    (a.y * b.z - a.z * b.y, a.z * b.x - a.x * b.z, a.x * b.y - a.y * b.x)
}

/// The exact dot product of an integer triple with a vector.
pub open spec fn spec_dot_exact(v: (int, int, int), w: Vec3) -> int {
    v.0 * w.x + v.1 * w.y + v.2 * w.z
}

/// In exact arithmetic the cross product is perpendicular to both of
/// its factors.  The camera derives its view basis from two cross
/// products, so the basis is orthogonal up to fixed-point rounding,
/// which is the construction's only deviation from this identity.
pub proof fn lemma_cross_orthogonal(a: Vec3, b: Vec3)
    ensures
        spec_dot_exact(spec_cross_exact(a, b), a) == 0,
        spec_dot_exact(spec_cross_exact(a, b), b) == 0,
{
    assert((a.y * b.z - a.z * b.y) * a.x + (a.z * b.x - a.x * b.z) * a.y + (a.x * b.y - a.y
        * b.x) * a.z == 0) by (nonlinear_arith);
    assert((a.y * b.z - a.z * b.y) * b.x + (a.z * b.x - a.x * b.z) * b.y + (a.x * b.y - a.y
        * b.x) * b.z == 0) by (nonlinear_arith);
}

} // verus!

//! Two-component vectors in fixed point.
//!
//! The plane-vector companion of `Vec3`, with the same saturating
//! fixed-point operations and the same exact, componentwise contracts.

use vstd::prelude::*;

use crate::fixed::abs_sat;
use crate::fixed::add_sat;
use crate::fixed::div_fp;
use crate::fixed::iabs;
use crate::fixed::isqrt;
use crate::fixed::isqrt_u128;
use crate::fixed::max_val;
use crate::fixed::min_val;
use crate::fixed::mul_fp;
use crate::fixed::neg_sat;
use crate::fixed::rem_t;
use crate::fixed::sat64;
use crate::fixed::sat_u64;
use crate::fixed::spec_add;
use crate::fixed::spec_div_fp;
use crate::fixed::spec_max;
use crate::fixed::spec_min;
use crate::fixed::spec_mul_fp;
use crate::fixed::spec_neg;
use crate::fixed::spec_sub;
use crate::fixed::square_u128;
use crate::fixed::sub_sat;
use crate::fixed::trem;

verus! {

/// A vector (or point) in the plane, in fixed-point millionths.
#[derive(Clone, Copy, Debug, PartialEq, Eq, Structural)]
pub struct Vec2 {
    pub x: i64,
    pub y: i64,
}

impl Vec2 {
    /// The squared length, exact (never saturated).
    pub open spec fn spec_len_sq(self) -> int {
        self.x * self.x + self.y * self.y
    }

    /// The length: the integer square root of the squared length.
    pub open spec fn spec_len(self) -> i64 {
        sat64(isqrt(self.spec_len_sq()))
    }

    /// Componentwise saturating sum.
    pub open spec fn spec_add(self, o: Vec2) -> Vec2 {
        Vec2 { x: spec_add(self.x, o.x), y: spec_add(self.y, o.y) }
    }

    /// Componentwise saturating difference.
    pub open spec fn spec_sub(self, o: Vec2) -> Vec2 {
        Vec2 { x: spec_sub(self.x, o.x), y: spec_sub(self.y, o.y) }
    }

    /// Componentwise negation.
    pub open spec fn spec_neg(self) -> Vec2 {
        Vec2 { x: spec_neg(self.x), y: spec_neg(self.y) }
    }

    /// Componentwise fixed-point product with a scalar.
    pub open spec fn spec_scale(self, s: i64) -> Vec2 {
        Vec2 { x: spec_mul_fp(self.x, s), y: spec_mul_fp(self.y, s) }
    }

    /// Componentwise magnitude.
    pub open spec fn spec_abs(self) -> Vec2 {
        Vec2 { x: sat64(iabs(self.x as int)), y: sat64(iabs(self.y as int)) }
    }

    /// Componentwise minimum against a scalar.
    pub open spec fn spec_min(self, num: i64) -> Vec2 {
        Vec2 { x: spec_min(self.x, num), y: spec_min(self.y, num) }
    }

    /// Componentwise maximum against a scalar.
    pub open spec fn spec_max(self, num: i64) -> Vec2 {
        Vec2 { x: spec_max(self.x, num), y: spec_max(self.y, num) }
    }

    /// The fixed-point dot product, folded left to right.
    pub open spec fn spec_dot(self, o: Vec2) -> i64 {
        spec_add(spec_mul_fp(self.x, o.x), spec_mul_fp(self.y, o.y))
    }

    /// What `modulo` returns.
    pub open spec fn spec_modulo(self, m: i64) -> Vec2 {
        Vec2 {
            x: trem(spec_add(sat64(trem(self.x as int, m as int)), m) as int, m as int) as i64,
            y: trem(spec_add(sat64(trem(self.y as int, m as int)), m) as int, m as int) as i64,
        }
    }

    /// The direction of the vector at unit length: each component divided
    /// by the length.  The zero vector, whose direction is undefined, is
    /// sent to itself.
    pub open spec fn spec_normalized(self) -> Vec2 {
        let l = self.spec_len();
        if l == 0 {
            Vec2 { x: 0, y: 0 }
        } else {
            Vec2 { x: spec_div_fp(self.x, l), y: spec_div_fp(self.y, l) }
        }
    }

    pub fn new(x: i64, y: i64) -> (v: Vec2)
        ensures
            v == (Vec2 { x, y }),
    {
        Vec2 { x, y }
    }

    /// The Euclidean length.
    pub fn len(&self) -> (r: i64)
        ensures
            r == self.spec_len(),
    {
        let xx = square_u128(self.x);
        let yy = square_u128(self.y);
        let s: u128 = xx + yy;
        sat_u64(isqrt_u128(s))
    }

    /// The vector scaled to unit length (the zero vector stays put).
    pub fn normalized(&self) -> (r: Vec2)
        ensures
            r == self.spec_normalized(),
    {
        let l = self.len();
        if l == 0 {
            Vec2 { x: 0, y: 0 }
        } else {
            Vec2 { x: div_fp(self.x, l), y: div_fp(self.y, l) }
        }
    }

    /// The dot product.
    pub fn dot(&self, other: &Vec2) -> (r: i64)
        ensures
            r == self.spec_dot(*other),
    {
        add_sat(mul_fp(self.x, other.x), mul_fp(self.y, other.y))
    }

    /// Componentwise magnitude.
    pub fn abs(&self) -> (r: Vec2)
        ensures
            r == self.spec_abs(),
    {
        Vec2 { x: abs_sat(self.x), y: abs_sat(self.y) }
    }

    /// Componentwise minimum against a scalar.
    pub fn min(&self, num: i64) -> (r: Vec2)
        ensures
            r == self.spec_min(num),
    {
        Vec2 { x: min_val(self.x, num), y: min_val(self.y, num) }
    }

    /// Componentwise maximum against a scalar.
    pub fn max(&self, num: i64) -> (r: Vec2)
        ensures
            r == self.spec_max(num),
    {
        Vec2 { x: max_val(self.x, num), y: max_val(self.y, num) }
    }

    /// Components clamped into `[lower, upper]`.
    pub fn clamp(&self, lower: i64, upper: i64) -> (r: Vec2)
        ensures
            r == self.spec_max(lower).spec_min(upper),
    {
        self.max(lower).min(upper)
    }

    /// Components reduced to `[0, |modulus|)` by a double truncating
    /// remainder, as `((v % m) + m) % m` computes it.
    pub fn modulo(&self, modulus: i64) -> (r: Vec2)
        requires
            modulus != 0,
        ensures
            r == self.spec_modulo(modulus),
    {
        Vec2 {
            x: rem_t(add_sat(rem_t(self.x, modulus), modulus), modulus),
            y: rem_t(add_sat(rem_t(self.y, modulus), modulus), modulus),
        }
    }

    /// Componentwise negation.
    pub fn neg(&self) -> (r: Vec2)
        ensures
            r == self.spec_neg(),
    {
        Vec2 { x: neg_sat(self.x), y: neg_sat(self.y) }
    }

    /// Componentwise saturating sum.
    pub fn add(&self, other: &Vec2) -> (r: Vec2)
        ensures
            r == self.spec_add(*other),
    {
        Vec2 { x: add_sat(self.x, other.x), y: add_sat(self.y, other.y) }
    }

    /// Componentwise saturating difference.
    pub fn sub(&self, other: &Vec2) -> (r: Vec2)
        ensures
            r == self.spec_sub(*other),
    {
        Vec2 { x: sub_sat(self.x, other.x), y: sub_sat(self.y, other.y) }
    }

    /// Componentwise fixed-point product with a scalar.
    pub fn scale(&self, s: i64) -> (r: Vec2)
        ensures
            r == self.spec_scale(s),
    {
        Vec2 { x: mul_fp(self.x, s), y: mul_fp(self.y, s) }
    }
}

} // verus!

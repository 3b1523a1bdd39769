//! Four-component vectors in fixed point.
//!
//! The homogeneous-coordinate companion of `Vec3`, with the same
//! saturating fixed-point operations and exact componentwise contracts.
//! Its squared length is the one sum in the crate that can outgrow even
//! the wide intermediate, so the length checks for that and saturates.

use vstd::prelude::*;

use crate::fixed::abs_sat;
use crate::fixed::add_sat;
use crate::fixed::div_fp;
use crate::fixed::iabs;
use crate::fixed::isqrt;
use crate::fixed::isqrt_u128;
use crate::fixed::lemma_isqrt_at_least;
use crate::fixed::max_val;
use crate::fixed::min_val;
use crate::fixed::mul_fp;
use crate::fixed::neg_sat;
use crate::fixed::rem_t;
use crate::fixed::sat64;
use crate::fixed::sat_u64;
use crate::fixed::spec_add;
use crate::fixed::spec_div_fp;
use crate::fixed::spec_max;
use crate::fixed::spec_min;
use crate::fixed::spec_mul_fp;
use crate::fixed::spec_neg;
use crate::fixed::spec_sub;
use crate::fixed::square_u128;
use crate::fixed::sub_sat;
use crate::fixed::trem;

verus! {

/// A four-component vector, in fixed-point millionths.
#[derive(Clone, Copy, Debug, PartialEq, Eq, Structural)]
pub struct Vec4 {
    pub x: i64,
    pub y: i64,
    pub z: i64,
    pub w: i64,
}

impl Vec4 {
    /// The squared length, exact (never saturated).
    pub open spec fn spec_len_sq(self) -> int {
        self.x * self.x + self.y * self.y + self.z * self.z + self.w * self.w
    }

    /// The length: the integer square root of the squared length.
    pub open spec fn spec_len(self) -> i64 {
        sat64(isqrt(self.spec_len_sq()))
    }

    /// Componentwise saturating sum.
    pub open spec fn spec_add(self, o: Vec4) -> Vec4 {
        Vec4 {
            x: spec_add(self.x, o.x),
            y: spec_add(self.y, o.y),
            z: spec_add(self.z, o.z),
            w: spec_add(self.w, o.w),
        }
    }

    /// Componentwise saturating difference.
    pub open spec fn spec_sub(self, o: Vec4) -> Vec4 {
        Vec4 {
            x: spec_sub(self.x, o.x),
            y: spec_sub(self.y, o.y),
            z: spec_sub(self.z, o.z),
            w: spec_sub(self.w, o.w),
        }
    }

    /// Componentwise negation.
    pub open spec fn spec_neg(self) -> Vec4 {
        Vec4 {
            x: spec_neg(self.x),
            y: spec_neg(self.y),
            z: spec_neg(self.z),
            w: spec_neg(self.w),
        }
    }

    /// Componentwise fixed-point product with a scalar.
    pub open spec fn spec_scale(self, s: i64) -> Vec4 {
        Vec4 {
            x: spec_mul_fp(self.x, s),
            y: spec_mul_fp(self.y, s),
            z: spec_mul_fp(self.z, s),
            w: spec_mul_fp(self.w, s),
        }
    }

    /// Componentwise magnitude.
    pub open spec fn spec_abs(self) -> Vec4 {
        Vec4 {
            x: sat64(iabs(self.x as int)),
            y: sat64(iabs(self.y as int)),
            z: sat64(iabs(self.z as int)),
            w: sat64(iabs(self.w as int)),
        }
    }

    /// Componentwise minimum against a scalar.
    pub open spec fn spec_min(self, num: i64) -> Vec4 {
        Vec4 {
            x: spec_min(self.x, num),
            y: spec_min(self.y, num),
            z: spec_min(self.z, num),
            w: spec_min(self.w, num),
        }
    }

    /// Componentwise maximum against a scalar.
    pub open spec fn spec_max(self, num: i64) -> Vec4 {
        Vec4 {
            x: spec_max(self.x, num),
            y: spec_max(self.y, num),
            z: spec_max(self.z, num),
            w: spec_max(self.w, num),
        }
    }

    /// The fixed-point dot product, folded left to right.
    pub open spec fn spec_dot(self, o: Vec4) -> i64 {
        spec_add(
            spec_add(
                spec_add(spec_mul_fp(self.x, o.x), spec_mul_fp(self.y, o.y)),
                spec_mul_fp(self.z, o.z),
            ),
            spec_mul_fp(self.w, o.w),
        )
    }

    /// What `modulo` returns.
    pub open spec fn spec_modulo(self, m: i64) -> Vec4 {
        Vec4 {
            x: trem(spec_add(sat64(trem(self.x as int, m as int)), m) as int, m as int) as i64,
            y: trem(spec_add(sat64(trem(self.y as int, m as int)), m) as int, m as int) as i64,
            z: trem(spec_add(sat64(trem(self.z as int, m as int)), m) as int, m as int) as i64,
            w: trem(spec_add(sat64(trem(self.w as int, m as int)), m) as int, m as int) as i64,
        }
    }

    /// The direction of the vector at unit length: each component divided
    /// by the length.  The zero vector, whose direction is undefined, is
    /// sent to itself.
    pub open spec fn spec_normalized(self) -> Vec4 {
        let l = self.spec_len();
        if l == 0 {
            Vec4 { x: 0, y: 0, z: 0, w: 0 }
        } else {
            Vec4 {
                x: spec_div_fp(self.x, l),
                y: spec_div_fp(self.y, l),
                z: spec_div_fp(self.z, l),
                w: spec_div_fp(self.w, l),
            }
        }
    }

    pub fn new(x: i64, y: i64, z: i64, w: i64) -> (v: Vec4)
        ensures
            v == (Vec4 { x, y, z, w }),
    {
        Vec4 { x, y, z, w }
    }

    /// The Euclidean length.
    pub fn len(&self) -> (r: i64)
        ensures
            r == self.spec_len(),
    {
        let xx = square_u128(self.x);
        let yy = square_u128(self.y);
        let zz = square_u128(self.z);
        let ww = square_u128(self.w);
        let s3: u128 = xx + yy + zz;
        match s3.checked_add(ww) {
            Some(s) => sat_u64(isqrt_u128(s)),
            None => {
                proof {
                    assert(self.spec_len_sq() > u128::MAX);
                    assert(self.spec_len_sq() >= 18446744073709551616int
                        * 18446744073709551616int);
                    lemma_isqrt_at_least(self.spec_len_sq(), 18446744073709551616int);
                }
                i64::MAX
            },
        }
    }

    /// The vector scaled to unit length (the zero vector stays put).
    pub fn normalized(&self) -> (r: Vec4)
        ensures
            r == self.spec_normalized(),
    {
        let l = self.len();
        if l == 0 {
            Vec4 { x: 0, y: 0, z: 0, w: 0 }
        } else {
            Vec4 {
                x: div_fp(self.x, l),
                y: div_fp(self.y, l),
                z: div_fp(self.z, l),
                w: div_fp(self.w, l),
            }
        }
    }

    /// The dot product.
    pub fn dot(&self, other: &Vec4) -> (r: i64)
        ensures
            r == self.spec_dot(*other),
    {
        add_sat(
            add_sat(
                add_sat(mul_fp(self.x, other.x), mul_fp(self.y, other.y)),
                mul_fp(self.z, other.z),
            ),
            mul_fp(self.w, other.w),
        )
    }

    /// Componentwise magnitude.
    pub fn abs(&self) -> (r: Vec4)
        ensures
            r == self.spec_abs(),
    {
        Vec4 { x: abs_sat(self.x), y: abs_sat(self.y), z: abs_sat(self.z), w: abs_sat(self.w) }
    }

    /// Componentwise minimum against a scalar.
    pub fn min(&self, num: i64) -> (r: Vec4)
        ensures
            r == self.spec_min(num),
    {
        Vec4 {
            x: min_val(self.x, num),
            y: min_val(self.y, num),
            z: min_val(self.z, num),
            w: min_val(self.w, num),
        }
    }

    /// Componentwise maximum against a scalar.
    pub fn max(&self, num: i64) -> (r: Vec4)
        ensures
            r == self.spec_max(num),
    {
        Vec4 {
            x: max_val(self.x, num),
            y: max_val(self.y, num),
            z: max_val(self.z, num),
            w: max_val(self.w, num),
        }
    }

    /// Components clamped into `[lower, upper]`.
    pub fn clamp(&self, lower: i64, upper: i64) -> (r: Vec4)
        ensures
            r == self.spec_max(lower).spec_min(upper),
    {
        self.max(lower).min(upper)
    }

    /// Components reduced to `[0, |modulus|)` by a double truncating
    /// remainder, as `((v % m) + m) % m` computes it.
    pub fn modulo(&self, modulus: i64) -> (r: Vec4)
        requires
            modulus != 0,
        ensures
            r == self.spec_modulo(modulus),
    {
        Vec4 {
            x: rem_t(add_sat(rem_t(self.x, modulus), modulus), modulus),
            y: rem_t(add_sat(rem_t(self.y, modulus), modulus), modulus),
            z: rem_t(add_sat(rem_t(self.z, modulus), modulus), modulus),
            w: rem_t(add_sat(rem_t(self.w, modulus), modulus), modulus),
        }
    }

    /// Componentwise negation.
    pub fn neg(&self) -> (r: Vec4)
        ensures
            r == self.spec_neg(),
    {
        Vec4 { x: neg_sat(self.x), y: neg_sat(self.y), z: neg_sat(self.z), w: neg_sat(self.w) }
    }

    /// Componentwise saturating sum.
    pub fn add(&self, other: &Vec4) -> (r: Vec4)
        ensures
            r == self.spec_add(*other),
    {
        Vec4 {
            x: add_sat(self.x, other.x),
            y: add_sat(self.y, other.y),
            z: add_sat(self.z, other.z),
            w: add_sat(self.w, other.w),
        }
    }

    /// Componentwise saturating difference.
    pub fn sub(&self, other: &Vec4) -> (r: Vec4)
        ensures
            r == self.spec_sub(*other),
    {
        Vec4 {
            x: sub_sat(self.x, other.x),
            y: sub_sat(self.y, other.y),
            z: sub_sat(self.z, other.z),
            w: sub_sat(self.w, other.w),
        }
    }

    /// Componentwise fixed-point product with a scalar.
    pub fn scale(&self, s: i64) -> (r: Vec4)
        ensures
            r == self.spec_scale(s),
    {
        Vec4 {
            x: mul_fp(self.x, s),
            y: mul_fp(self.y, s),
            z: mul_fp(self.z, s),
            w: mul_fp(self.w, s),
        }
    }
}

} // verus!

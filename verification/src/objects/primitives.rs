//! The primitive shapes: a sphere and an axis-aligned box, both centred
//! at the local origin.  World placement is the caller's business: the
//! query point is transformed before the call, so neither shape carries
//! a centre of its own.

use vstd::prelude::*;

use crate::fixed::add_sat;
use crate::fixed::isqrt;
use crate::fixed::lemma_isqrt_is;
use crate::fixed::max_val;
use crate::fixed::min_val;
use crate::fixed::sat64;
use crate::fixed::spec_add;
use crate::fixed::spec_max;
use crate::fixed::spec_min;
use crate::fixed::spec_sub;
use crate::fixed::sub_sat;
use crate::linalg::vec3::Vec3;

verus! {

/// A sphere of the given radius about the origin.
#[derive(Clone, Copy, Debug, PartialEq, Eq, Structural)]
pub struct Sphere {
    pub r: i64,
}

impl Sphere {
    pub fn new(r: i64) -> (s: Sphere)
        ensures
            s.r == r,
    {
        Sphere { r }
    }

    /// The signed distance from `z` to the sphere's surface:
    /// the point's range from the origin, less the radius.
    pub open spec fn spec_distance(self, z: Vec3) -> i64 {
        spec_sub(z.spec_len(), self.r)
    }

    pub fn distance_estimator(&self, z: &Vec3) -> (d: i64)
        ensures
            d == self.spec_distance(*z),
    {
        sub_sat(z.len(), self.r)
    }
}

/// An axis-aligned box about the origin, described by its half-extents
/// along each axis (so it need not be equilateral).
#[derive(Clone, Copy, Debug, PartialEq, Eq, Structural)]
pub struct Cube {
    pub b: Vec3,
}

impl Cube {
    pub fn new(b: &Vec3) -> (c: Cube)
        ensures
            c.b == *b,
    {
        Cube { b: *b }
    }

    /// The signed distance from `z` to the box's surface: with
    /// `d = abs(z) - b`, the length of `max(d, 0)` plus the (negative
    /// inside the box, zero outside) `min(max(d.y, d.z, d.x), 0)`.
    pub open spec fn spec_distance(self, z: Vec3) -> i64 {
        let d = z.spec_abs().spec_sub(self.b);
        spec_add(
            d.spec_max(0).spec_len(),
            spec_min(spec_max(spec_max(d.y, d.z), d.x), 0),
        )
    }

    pub fn distance_estimator(&self, z: &Vec3) -> (r: i64)
        ensures
            r == self.spec_distance(*z),
    {
        let d = z.abs().sub(&self.b);
        add_sat(d.max(0).len(), min_val(max_val(max_val(d.y, d.z), d.x), 0))
    }
}

/// A point on an axis is exactly as far from the origin as its one
/// nonzero coordinate says.
pub proof fn lemma_axis_point_len(d: i64)
    requires
        d >= 0,
    ensures
        (Vec3 { x: d, y: 0, z: 0 }).spec_len() == d,
{
    let p = Vec3 { x: d, y: 0, z: 0 };
    assert(p.spec_len_sq() == d * d);
    assert(d * d < (d + 1) * (d + 1)) by (nonlinear_arith)
        requires
            d >= 0,
    ;
    lemma_isqrt_is(d * d, d as int);
    assert(sat64(isqrt(d * d)) == d);
}

/// A sphere's distance at any point of range `d` from the origin is
/// the saturated difference `d - r`.
pub proof fn lemma_sphere_distance_at_point(s: Sphere, z: Vec3, d: i64)
    requires
        d >= 0,
        z.spec_len() == d,
    ensures
        s.spec_distance(z) == sat64(d - s.r),
{
}

/// Such points exist for every range: sampled on the axis point at
/// range `d`, the sphere of radius `r` reports exactly `d - r`.
pub proof fn lemma_sphere_distance_at_range(r: i64, d: i64)
    requires
        d >= 0,
    ensures
        (Sphere { r }).spec_distance(Vec3 { x: d, y: 0, z: 0 }) == sat64(d - r),
{
    lemma_axis_point_len(d);
    lemma_sphere_distance_at_point(Sphere { r }, Vec3 { x: d, y: 0, z: 0 }, d);
}

} // verus!

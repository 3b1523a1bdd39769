//! The object algebra and the scene.
//!
//! An `Object` is anything that can report a signed distance from a query
//! point to its nearest surface: one of the two primitives, or a boolean
//! combinator over two child objects.  The combinators compose distances
//! with minimum and maximum, so a tree of any depth is again an object.
//! A `Scene` owns a list of top-level objects and reports the least of
//! their distances, starting from `INFINITY` so that an empty scene is
//! "nothing anywhere" rather than an error.

use vstd::prelude::*;

use crate::fixed::INFINITY;
use crate::fixed::max_val;
use crate::fixed::min_val;
use crate::fixed::neg_sat;
use crate::fixed::spec_max;
use crate::fixed::spec_min;
use crate::fixed::spec_neg;
use crate::linalg::vec3::Vec3;
use crate::objects::primitives::Cube;
use crate::objects::primitives::Sphere;

verus! {

/// A node of the scene graph: a primitive, or a boolean combination of
/// two owned children.  Trees are built bottom-up and never mutated, so
/// no sharing and no cycles can arise.
pub enum Object {
    Sphere(Sphere),
    Cube(Cube),
    /// Nearest surface of either child wins.
    Union(Box<Object>, Box<Object>),
    /// The first child with the second carved out of it (asymmetric).
    Subtract(Box<Object>, Box<Object>),
    /// Only space inside both children is kept.
    Intersect(Box<Object>, Box<Object>),
}

impl Object {
    /// The signed distance from `z` to the object's nearest surface:
    /// negative inside, zero on the surface, positive outside.
    pub open spec fn spec_distance(self, z: Vec3) -> i64
        decreases self,
    {
        match self {
            Object::Sphere(s) => s.spec_distance(z),
            Object::Cube(c) => c.spec_distance(z),
            Object::Union(a, b) => spec_min(a.spec_distance(z), b.spec_distance(z)),
            Object::Subtract(a, b) => spec_max(
                a.spec_distance(z),
                spec_neg(b.spec_distance(z)),
            ),
            Object::Intersect(a, b) => spec_max(a.spec_distance(z), b.spec_distance(z)),
        }
    }

    pub fn distance_estimator(&self, z: &Vec3) -> (r: i64)
        ensures
            r == self.spec_distance(*z),
        decreases self,
    {
        match self {
            Object::Sphere(s) => s.distance_estimator(z),
            Object::Cube(c) => c.distance_estimator(z),
            Object::Union(a, b) => min_val(a.distance_estimator(z), b.distance_estimator(z)),
            Object::Subtract(a, b) => max_val(
                a.distance_estimator(z),
                neg_sat(b.distance_estimator(z)),
            ),
            Object::Intersect(a, b) => max_val(a.distance_estimator(z), b.distance_estimator(z)),
        }
    }
}

/// The least member distance over a list of objects, folded left to
/// right from `INFINITY`.
pub open spec fn spec_scene_distance(objs: Seq<Object>, z: Vec3) -> i64
    decreases objs.len(),
{
    if objs.len() == 0 {
        INFINITY
    } else {
        spec_min(spec_scene_distance(objs.drop_last(), z), objs.last().spec_distance(z))
    }
}

/// An ordered, append-only collection of top-level objects, itself an
/// object capability: its distance is the minimum over its members.
pub struct Scene(pub Vec<Object>);

impl Scene {
    pub fn new() -> (s: Scene)
        ensures
            s.0@.len() == 0,
    {
        Scene(Vec::new())
    }

    /// The least member distance (`INFINITY` for an empty scene).
    pub open spec fn spec_distance(self, z: Vec3) -> i64 {
        spec_scene_distance(self.0@, z)
    }

    pub fn distance_estimator(&self, z: &Vec3) -> (r: i64)
        ensures
            r == self.spec_distance(*z),
    {
        let mut acc: i64 = INFINITY;
        let n = self.0.len();
        for i in 0..n
            invariant
                n == self.0@.len(),
                acc == spec_scene_distance(self.0@.take(i as int), *z),
        {
            acc = min_val(acc, self.0[i].distance_estimator(z));
            proof {
                assert(self.0@.take(i + 1 as int).drop_last() =~= self.0@.take(i as int));
                assert(self.0@.take(i + 1 as int).last() == self.0@[i as int]);
            }
        }
        proof {
            assert(self.0@.take(n as int) =~= self.0@);
        }
        acc
    }

    /// Append an object, transferring ownership of it to the scene.
    pub fn add(&mut self, obj: Object)
        ensures
            final(self).0@ == old(self).0@.push(obj),
    {
        self.0.push(obj);
    }
}

/// A union's distance at any point is the smaller of its children's
/// distances there: the nearest surface wins.
pub proof fn lemma_union_distance(a: Box<Object>, b: Box<Object>, p: Vec3)
    ensures
        Object::Union(a, b).spec_distance(p) == spec_min(a.spec_distance(p), b.spec_distance(p)),
{
}

/// A subtraction's distance at any point is the larger of the first
/// child's distance and the negated second: space inside the second
/// child is carved out of the first, and the order of the children
/// matters.
pub proof fn lemma_subtract_distance(a: Box<Object>, b: Box<Object>, p: Vec3)
    ensures
        Object::Subtract(a, b).spec_distance(p) == spec_max(
            a.spec_distance(p),
            spec_neg(b.spec_distance(p)),
        ),
{
}

/// An intersection's distance at any point is the larger of its
/// children's distances there: only space inside both is kept.
pub proof fn lemma_intersect_distance(a: Box<Object>, b: Box<Object>, p: Vec3)
    ensures
        Object::Intersect(a, b).spec_distance(p) == spec_max(
            a.spec_distance(p),
            b.spec_distance(p),
        ),
{
}

/// An empty scene reports `INFINITY` at every point.
pub proof fn lemma_empty_scene_distance(s: Scene, p: Vec3)
    requires
        s.0@.len() == 0,
    ensures
        s.spec_distance(p) == INFINITY,
{
}

} // verus!

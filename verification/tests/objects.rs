//! The object algebra: primitive distances, combinators, and the scene fold.

use raymarch::fixed::INFINITY;
use raymarch::fixed::SCALE;
use raymarch::linalg::Vec3;
use raymarch::objects::Cube;
use raymarch::objects::Object;
use raymarch::objects::Scene;
use raymarch::objects::Sphere;

#[test]
fn sphere_distance_is_range_minus_radius() {
    // Sphere(2).distance((3, 0, 0)) == 1.
    let s = Sphere::new(2 * SCALE);
    assert_eq!(s.distance_estimator(&Vec3::new(3 * SCALE, 0, 0)), 1 * SCALE);
    // Inside: negative; on the surface: zero.
    assert_eq!(s.distance_estimator(&Vec3::new(0, 0, 0)), -2 * SCALE);
    assert_eq!(s.distance_estimator(&Vec3::new(0, 2 * SCALE, 0)), 0);
}

#[test]
fn cube_distance_outside_and_inside() {
    let c = Cube::new(&Vec3::new(1 * SCALE, 1 * SCALE, 1 * SCALE));
    // A unit away from a face.
    assert_eq!(c.distance_estimator(&Vec3::new(2 * SCALE, 0, 0)), 1 * SCALE);
    // At the centre: a half-extent inside.
    assert_eq!(c.distance_estimator(&Vec3::new(0, 0, 0)), -1 * SCALE);
    // At a corner: on the surface.
    assert_eq!(c.distance_estimator(&Vec3::new(1 * SCALE, 1 * SCALE, 1 * SCALE)), 0);
}

#[test]
fn union_takes_the_nearer_child() {
    let a = Object::Sphere(Sphere::new(1 * SCALE));
    let b = Object::Cube(Cube::new(&Vec3::new(500_000, 500_000, 500_000)));
    let u = Object::Union(Box::new(a), Box::new(b));
    let a = Object::Sphere(Sphere::new(1 * SCALE));
    let b = Object::Cube(Cube::new(&Vec3::new(500_000, 500_000, 500_000)));
    for p in [
        Vec3::new(3 * SCALE, 0, 0),
        Vec3::new(0, 0, 0),
        Vec3::new(-2 * SCALE, 1 * SCALE, 700_000),
    ] {
        let da = a.distance_estimator(&p);
        let db = b.distance_estimator(&p);
        assert_eq!(u.distance_estimator(&p), da.min(db));
    }
}

#[test]
fn intersect_takes_the_farther_child() {
    let a = Object::Sphere(Sphere::new(1 * SCALE));
    let b = Object::Cube(Cube::new(&Vec3::new(500_000, 500_000, 500_000)));
    let i = Object::Intersect(Box::new(a), Box::new(b));
    let a = Object::Sphere(Sphere::new(1 * SCALE));
    let b = Object::Cube(Cube::new(&Vec3::new(500_000, 500_000, 500_000)));
    for p in [
        Vec3::new(3 * SCALE, 0, 0),
        Vec3::new(0, 0, 0),
        Vec3::new(-2 * SCALE, 1 * SCALE, 700_000),
    ] {
        let da = a.distance_estimator(&p);
        let db = b.distance_estimator(&p);
        assert_eq!(i.distance_estimator(&p), da.max(db));
    }
}

#[test]
fn subtract_carves_and_is_asymmetric() {
    let a = Object::Sphere(Sphere::new(2 * SCALE));
    let b = Object::Sphere(Sphere::new(1 * SCALE));
    let ab = Object::Subtract(Box::new(a), Box::new(b));
    let a = Object::Sphere(Sphere::new(2 * SCALE));
    let b = Object::Sphere(Sphere::new(1 * SCALE));
    let ba = Object::Subtract(Box::new(b), Box::new(a));
    let a = Object::Sphere(Sphere::new(2 * SCALE));
    let b = Object::Sphere(Sphere::new(1 * SCALE));
    for p in [Vec3::new(3 * SCALE, 0, 0), Vec3::new(0, 0, 0), Vec3::new(0, 1_500_000, 0)] {
        let da = a.distance_estimator(&p);
        let db = b.distance_estimator(&p);
        assert_eq!(ab.distance_estimator(&p), da.max(-db));
        assert_eq!(ba.distance_estimator(&p), db.max(-da));
    }
    // At the origin the two orders disagree: A minus B is not B minus A.
    let origin = Vec3::new(0, 0, 0);
    assert_ne!(ab.distance_estimator(&origin), ba.distance_estimator(&origin));
}

#[test]
fn empty_scene_is_infinitely_far() {
    // Scene::new().distance(p) == +infinity for any finite p.
    let scene = Scene::new();
    assert_eq!(scene.distance_estimator(&Vec3::new(0, 0, 0)), INFINITY);
    assert_eq!(scene.distance_estimator(&Vec3::new(-5 * SCALE, 17 * SCALE, 123)), INFINITY);
}

#[test]
fn scene_folds_members_with_min() {
    let mut scene = Scene::new();
    scene.add(Object::Sphere(Sphere::new(1 * SCALE)));
    scene.add(Object::Cube(Cube::new(&Vec3::new(500_000, 500_000, 500_000))));
    let sphere = Object::Sphere(Sphere::new(1 * SCALE));
    let cube = Object::Cube(Cube::new(&Vec3::new(500_000, 500_000, 500_000)));
    for p in [Vec3::new(3 * SCALE, 0, 0), Vec3::new(0, 0, 2 * SCALE), Vec3::new(0, 0, 0)] {
        let expected = sphere.distance_estimator(&p).min(cube.distance_estimator(&p));
        assert_eq!(scene.distance_estimator(&p), expected);
    }
}

#[test]
fn carved_cube_has_no_material_at_origin() {
    // Subtract(Cube(0.75), Sphere(1)): the sphere encloses the cube, so
    // the carved solid's distance at the origin is
    // max(-0.75, -(-1.0)) == 1.0.
    let cube = Cube::new(&Vec3::new(750_000, 750_000, 750_000));
    let sphere = Sphere::new(1 * SCALE);
    let carved = Object::Subtract(
        Box::new(Object::Cube(cube)),
        Box::new(Object::Sphere(sphere)),
    );
    assert_eq!(carved.distance_estimator(&Vec3::new(0, 0, 0)), 1 * SCALE);
}

#[test]
fn deep_trees_compose() {
    // ((A u B) n C) \ D is still an object with a distance everywhere.
    let a = Object::Sphere(Sphere::new(1 * SCALE));
    let b = Object::Cube(Cube::new(&Vec3::new(1 * SCALE, 1 * SCALE, 1 * SCALE)));
    let c = Object::Sphere(Sphere::new(2 * SCALE));
    let d = Object::Sphere(Sphere::new(500_000));
    let tree = Object::Subtract(
        Box::new(Object::Intersect(
            Box::new(Object::Union(Box::new(a), Box::new(b))),
            Box::new(c),
        )),
        Box::new(d),
    );
    // At the origin: union gives -1, intersect with -2 gives -1,
    // subtracting the small sphere (-0.5 inside, negated to 0.5) gives 0.5.
    assert_eq!(tree.distance_estimator(&Vec3::new(0, 0, 0)), 500_000);
}

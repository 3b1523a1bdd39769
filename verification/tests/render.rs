//! The camera and the sphere tracer, end to end.

use raymarch::fixed::SCALE;
use raymarch::linalg::Vec3;
use raymarch::objects::Cube;
use raymarch::objects::Object;
use raymarch::objects::Scene;
use raymarch::objects::Sphere;
use raymarch::render::ViewPort;
use raymarch::render::cast_ray;
use raymarch::render::render;

fn straight_camera(width: u32, height: u32, fov: i64) -> ViewPort {
    ViewPort::new(
        &Vec3::new(0, 0, 10 * SCALE),
        &Vec3::new(0, 0, -1 * SCALE),
        &Vec3::new(0, 1 * SCALE, 0),
        width,
        height,
        fov,
    )
}

fn skew_camera() -> ViewPort {
    ViewPort::new(
        &Vec3::new(3 * SCALE, 3 * SCALE, 3 * SCALE),
        &Vec3::new(-2 * SCALE, -3 * SCALE, -3 * SCALE),
        &Vec3::new(300_000, 1 * SCALE, 200_000),
        64,
        48,
        100 * SCALE,
    )
}

#[test]
fn viewport_delta_matches_formula() {
    // delta = 2 * tan(radians(60) / 2) / 64 = 2 * tan(30 degrees) / 64,
    // about 0.0180422, held to within a few millionths by the series.
    let port = straight_camera(64, 64, 60 * SCALE);
    assert!((port.delta - 18_042).abs() <= 2, "delta came out {}", port.delta);
}

#[test]
fn camera_basis_is_orthonormal() {
    // dot(forward, right), dot(forward, up) and dot(right, up) all
    // vanish, and each basis vector has unit length, to within
    // fixed-point rounding.
    for port in [straight_camera(64, 64, 60 * SCALE), skew_camera()] {
        assert!(port.forward.dot(&port.right).abs() <= 10);
        assert!(port.forward.dot(&port.up).abs() <= 10);
        assert!(port.right.dot(&port.up).abs() <= 10);
        assert!((port.forward.len() - SCALE).abs() <= 8);
        assert!((port.right.len() - SCALE).abs() <= 8);
        assert!((port.up.len() - SCALE).abs() <= 8);
    }
}

#[test]
fn rays_have_unit_length() {
    // |ray_from_pixel(x, y)| == 1 to within fixed-point rounding, for
    // pixels all over both cameras' grids.
    for port in [straight_camera(64, 64, 60 * SCALE), skew_camera()] {
        for (x, y) in [(0, 0), (63, 0), (0, 47), (63, 47), (32, 24), (5, 40), (60, 1)] {
            let ray = port.ray_from_pixel(x, y);
            let l = ray.len();
            assert!((l - SCALE).abs() <= 8, "ray ({x},{y}) has length {l}");
        }
    }
}

#[test]
fn center_ray_points_forward() {
    // The exact centre pixel of an even grid sits on the camera axis.
    let port = straight_camera(64, 64, 60 * SCALE);
    let ray = port.ray_from_pixel(32, 32);
    assert_eq!(ray, port.forward);
}

#[test]
fn rendering_twice_is_bit_identical() {
    let mut scene = Scene::new();
    scene.add(Object::Sphere(Sphere::new(1 * SCALE)));
    let port = straight_camera(16, 16, 60 * SCALE);
    let first = render(&port, &scene);
    let second = render(&port, &scene);
    assert_eq!(first.pixels, second.pixels);
    assert_eq!(first.width, second.width);
    assert_eq!(first.height, second.height);
}

#[test]
fn sphere_scene_end_to_end() {
    // A unit sphere at the origin, seen from (0, 0, 10) down the -z
    // axis on a 64x64 grid with a 60 degree field of view: the centre
    // pixel converges in a couple of steps and is near-white, while the
    // corner ray misses everything, spends all hundred steps, and lands
    // on the darkest shade the step-count visualization can produce.
    let mut scene = Scene::new();
    scene.add(Object::Sphere(Sphere::new(1 * SCALE)));
    let port = straight_camera(64, 64, 60 * SCALE);
    let img = render(&port, &scene);
    assert_eq!(img.width, 64);
    assert_eq!(img.height, 64);
    let center = img.get(32, 32);
    let corner = img.get(0, 0);
    assert!(center >= 250, "centre pixel {center} is not near-white");
    assert_eq!(corner, 3, "corner pixel {corner} is not the darkest shade");
}

#[test]
fn carved_scene_misses_through_the_hole() {
    // Subtract(Cube(0.75), Sphere(1)) has no material at the origin, so
    // the axis ray passes straight through and exhausts its budget.
    let mut scene = Scene::new();
    scene.add(Object::Subtract(
        Box::new(Object::Cube(Cube::new(&Vec3::new(750_000, 750_000, 750_000)))),
        Box::new(Object::Sphere(Sphere::new(1 * SCALE))),
    ));
    let port = straight_camera(64, 64, 60 * SCALE);
    let img = render(&port, &scene);
    assert_eq!(img.get(32, 32), 3);
}

#[test]
fn empty_scene_renders_darkest() {
    // No geometry: every ray runs out its budget at the darkest shade.
    let scene = Scene::new();
    let from = Vec3::new(0, 0, 10 * SCALE);
    let dir = Vec3::new(0, 0, -1 * SCALE);
    assert_eq!(cast_ray(&from, &dir, &scene), 3);
}

#[test]
fn immediate_hit_is_brightest() {
    // Starting on the surface, the march stops at step zero: full white.
    let mut scene = Scene::new();
    scene.add(Object::Sphere(Sphere::new(1 * SCALE)));
    let from = Vec3::new(1 * SCALE, 0, 0);
    let dir = Vec3::new(-1 * SCALE, 0, 0);
    assert_eq!(cast_ray(&from, &dir, &scene), 255);
}

#[test]
fn quick_hit_is_near_white() {
    // From ten units out, the first step lands on the surface exactly:
    // one step spent, intensity round(255 * 99 / 100) == 252.
    let mut scene = Scene::new();
    scene.add(Object::Sphere(Sphere::new(1 * SCALE)));
    let from = Vec3::new(0, 0, 10 * SCALE);
    let dir = Vec3::new(0, 0, -1 * SCALE);
    assert_eq!(cast_ray(&from, &dir, &scene), 252);
}

//! Vector algebra: construction, lengths, products and componentwise ops.

use raymarch::fixed::SCALE;
use raymarch::fixed::sqrt_fp;
use raymarch::linalg::Vec2;
use raymarch::linalg::Vec3;
use raymarch::linalg::Vec4;

#[test]
fn _vec2_create_with_new() {
    let vec = Vec2 { x: 42 * SCALE, y: -69 * SCALE };
    let vec_from_new = Vec2::new(42 * SCALE, -69 * SCALE);
    assert_eq!(vec, vec_from_new);
}

#[test]
fn _vec2_len() {
    let vec = Vec2::new(3 * SCALE, 4 * SCALE);
    assert_eq!(vec.len(), 5 * SCALE);
}

#[test]
fn _vec2_dot() {
    let vec1 = Vec2::new(1 * SCALE, 2 * SCALE);
    let vec2 = Vec2::new(-5 * SCALE, 2_500_000);
    assert_eq!(vec1.dot(&vec2), 0);
    assert_eq!(sqrt_fp(vec1.dot(&vec1)), vec1.len());
}

#[test]
fn _vec2_neg() {
    let vec = Vec2::new(1 * SCALE, -2 * SCALE);
    assert_eq!(vec.neg(), Vec2::new(-1 * SCALE, 2 * SCALE));
}

#[test]
fn _vec3_create_with_new() {
    let vec = Vec3 { x: 42 * SCALE, y: -69 * SCALE, z: 666_600_000 };
    let vec_from_new = Vec3::new(42 * SCALE, -69 * SCALE, 666_600_000);
    assert_eq!(vec, vec_from_new);
}

#[test]
fn _vec3_len() {
    let vec = Vec3::new(4 * SCALE, 13 * SCALE, 16 * SCALE);
    assert_eq!(vec.len(), 21 * SCALE);
}

#[test]
fn _vec3_dot() {
    let vec1 = Vec3::new(1 * SCALE, 2 * SCALE, 3 * SCALE);
    let vec2 = Vec3::new(-5 * SCALE, -2 * SCALE, 3 * SCALE);
    assert_eq!(vec1.dot(&vec2), 0);
    assert_eq!(sqrt_fp(vec1.dot(&vec1)), vec1.len());
}

#[test]
fn cross() {
    let vec1 = Vec3::new(5 * SCALE, 2 * SCALE, -4 * SCALE);
    let vec2 = Vec3::new(-2_500_000, -1 * SCALE, 2 * SCALE);
    assert_eq!(vec1.cross(&vec2), Vec3::new(0, 0, 0));
    let vec1 = Vec3::new(1 * SCALE, 0, 0);
    let vec2 = Vec3::new(0, 1 * SCALE, 0);
    assert_eq!(vec1.cross(&vec2), Vec3::new(0, 0, 1 * SCALE));
}

#[test]
fn _vec3_neg() {
    let vec = Vec3::new(1 * SCALE, -2 * SCALE, 3 * SCALE);
    assert_eq!(vec.neg(), Vec3::new(-1 * SCALE, 2 * SCALE, -3 * SCALE));
}

#[test]
fn swizzle_assign() {
    let vec = Vec3::new(1 * SCALE, 2 * SCALE, 3 * SCALE);
    let yx = vec.yx();
    assert_eq!(Vec3::new(yx.x, yx.y, 5 * SCALE), Vec3::new(2 * SCALE, 1 * SCALE, 5 * SCALE));
}

#[test]
fn _vec4_create_with_new() {
    let vec = Vec4 { x: 42 * SCALE, y: -69 * SCALE, z: 666_600_000, w: 420 * SCALE };
    let vec_from_new = Vec4::new(42 * SCALE, -69 * SCALE, 666_600_000, 420 * SCALE);
    assert_eq!(vec, vec_from_new);
}

#[test]
fn _vec4_len() {
    let vec = Vec4::new(2 * SCALE, 3 * SCALE, 8 * SCALE, 2 * SCALE);
    assert_eq!(vec.len(), 9 * SCALE);
}

#[test]
fn _vec4_dot() {
    let vec1 = Vec4::new(1 * SCALE, 2 * SCALE, 8 * SCALE, -5 * SCALE);
    let vec2 = Vec4::new(-5 * SCALE, -2 * SCALE, 3 * SCALE, 3 * SCALE);
    assert_eq!(vec1.dot(&vec2), 0);
    assert_eq!(sqrt_fp(vec1.dot(&vec1)), vec1.len());
}

#[test]
fn _vec4_neg() {
    let vec = Vec4::new(1 * SCALE, -2 * SCALE, 3 * SCALE, -4 * SCALE);
    assert_eq!(vec.neg(), Vec4::new(-1 * SCALE, 2 * SCALE, -3 * SCALE, 4 * SCALE));
}

#[test]
fn normalized_is_unit_length() {
    // For a vector no shorter than one, the length of its normalized
    // image lands within a few millionths of one (fixed-point rounding
    // is the only deviation; a far shorter vector normalizes more
    // coarsely, since the rounding is amplified by one over its length).
    let cases = [
        Vec3::new(1 * SCALE, 2 * SCALE, 1 * SCALE),
        Vec3::new(3 * SCALE, -4 * SCALE, 12 * SCALE),
        Vec3::new(-7 * SCALE, 1, 2_718_281),
        Vec3::new(600_000, -500_000, 700_000),
    ];
    for v in cases {
        let l = v.normalized().len();
        assert!((l - SCALE).abs() <= 8, "length {l} strays from one");
    }
}

#[test]
fn normalized_zero_stays_zero() {
    let zero = Vec3::new(0, 0, 0);
    assert_eq!(zero.normalized(), zero);
}

#[test]
fn clamp_bounds_components() {
    let v = Vec3::new(-2 * SCALE, 500_000, 3 * SCALE);
    assert_eq!(v.clamp(0, 1 * SCALE), Vec3::new(0, 500_000, 1 * SCALE));
}

#[test]
fn modulo_wraps_into_range() {
    let v = Vec3::new(7 * SCALE, -3 * SCALE, 5 * SCALE);
    assert_eq!(v.modulo(4 * SCALE), Vec3::new(3 * SCALE, 1 * SCALE, 1 * SCALE));
}

#[test]
fn abs_min_max_componentwise() {
    let v = Vec3::new(-2 * SCALE, 3 * SCALE, -500_000);
    assert_eq!(v.abs(), Vec3::new(2 * SCALE, 3 * SCALE, 500_000));
    assert_eq!(v.min(0), Vec3::new(-2 * SCALE, 0, -500_000));
    assert_eq!(v.max(0), Vec3::new(0, 3 * SCALE, 0));
}

#[test]
fn sqrt_fp_exact_squares() {
    assert_eq!(sqrt_fp(4 * SCALE), 2 * SCALE);
    assert_eq!(sqrt_fp(0), 0);
    assert_eq!(sqrt_fp(2 * SCALE), 1_414_213);
}

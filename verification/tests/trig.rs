//! Fixed-point trigonometry: the series against known angles.

use raymarch::fixed::PI_FP;
use raymarch::fixed::SCALE;
use raymarch::trig::cos_fp;
use raymarch::trig::radians_fp;
use raymarch::trig::sin_fp;
use raymarch::trig::tan_fp;

#[test]
fn radians_of_half_turn_is_pi() {
    assert_eq!(radians_fp(180 * SCALE), PI_FP);
    assert_eq!(radians_fp(0), 0);
    assert_eq!(radians_fp(-180 * SCALE), -PI_FP);
}

#[test]
fn sine_and_cosine_at_familiar_angles() {
    // sin(30 degrees) == cos(60 degrees) == 1/2.
    let thirty = radians_fp(30 * SCALE);
    let sixty = radians_fp(60 * SCALE);
    assert!((sin_fp(thirty) - 500_000).abs() <= 3);
    assert!((cos_fp(sixty) - 500_000).abs() <= 3);
    assert!((sin_fp(0)).abs() == 0);
    assert_eq!(cos_fp(0), SCALE);
}

#[test]
fn tangent_of_an_eighth_turn_is_one() {
    let forty_five = radians_fp(45 * SCALE);
    assert!((tan_fp(forty_five) - SCALE).abs() <= 5);
}

#[test]
fn tangent_blows_up_at_a_quarter_turn() {
    // At ninety degrees the cosine vanishes; the tangent saturates
    // toward infinity instead of dividing by zero.
    let ninety = radians_fp(90 * SCALE);
    assert!(tan_fp(ninety) >= 100_000_000_000);
}

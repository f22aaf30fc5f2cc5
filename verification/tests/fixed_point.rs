//! Scalar fixed-point arithmetic, vectors, and trigonometry.

use ray_tracing::fx::{fx_add, fx_clamp01, fx_div, fx_mul, fx_neg, fx_sqrt, fx_sub, FX_ONE};
use ray_tracing::trig::{fx_cos, fx_sin, fx_tan, HALF_PI_FX, PI_FX, TWO_PI_FX};
use ray_tracing::vec::Fx3;

#[test]
fn mul_exact_integers() {
    assert_eq!(fx_mul(2 * FX_ONE, 3 * FX_ONE), 6 * FX_ONE);
    assert_eq!(fx_mul(-2 * FX_ONE, 3 * FX_ONE), -6 * FX_ONE);
    assert_eq!(fx_mul(FX_ONE / 2, FX_ONE / 2), FX_ONE / 4);
}

#[test]
fn mul_rounds_toward_negative_infinity() {
    // -0.5 * 1/65536 = -1/131072, which floors to -1 unit, not 0.
    assert_eq!(fx_mul(-FX_ONE / 2, 1), -1);
    assert_eq!(fx_mul(FX_ONE / 2, 1), 0);
}

#[test]
fn mul_saturates() {
    assert_eq!(fx_mul(i64::MAX, 2 * FX_ONE), i64::MAX);
    assert_eq!(fx_mul(i64::MAX, -2 * FX_ONE), i64::MIN);
}

#[test]
fn div_exact_and_guarded() {
    assert_eq!(fx_div(6 * FX_ONE, 3 * FX_ONE), 2 * FX_ONE);
    assert_eq!(fx_div(FX_ONE, 2 * FX_ONE), FX_ONE / 2);
    assert_eq!(fx_div(-FX_ONE, 2 * FX_ONE), -FX_ONE / 2);
    // Division by zero is guarded: the result is zero, never a fault.
    assert_eq!(fx_div(12345, 0), 0);
}

#[test]
fn add_sub_neg_saturate() {
    assert_eq!(fx_add(i64::MAX, 1), i64::MAX);
    assert_eq!(fx_sub(i64::MIN, 1), i64::MIN);
    assert_eq!(fx_neg(i64::MIN), i64::MAX);
    assert_eq!(fx_add(FX_ONE, FX_ONE), 2 * FX_ONE);
}

#[test]
fn sqrt_exact_squares_and_negatives() {
    assert_eq!(fx_sqrt(4 * FX_ONE), 2 * FX_ONE);
    assert_eq!(fx_sqrt(FX_ONE), FX_ONE);
    assert_eq!(fx_sqrt(0), 0);
    assert_eq!(fx_sqrt(-FX_ONE), 0);
    // sqrt(2) = 1.41421... = 92681.9 units.
    let r = fx_sqrt(2 * FX_ONE);
    assert!((r - 92681).abs() <= 1, "sqrt(2) = {r}");
}

#[test]
fn clamp_unit_range() {
    assert_eq!(fx_clamp01(-5), 0);
    assert_eq!(fx_clamp01(FX_ONE + 5), FX_ONE);
    assert_eq!(fx_clamp01(1234), 1234);
}

#[test]
fn vector_dot_cross_length() {
    let x = Fx3::new(FX_ONE, 0, 0);
    let y = Fx3::new(0, FX_ONE, 0);
    let z = Fx3::new(0, 0, FX_ONE);
    assert_eq!(x.dot(&y), 0);
    assert_eq!(x.dot(&x), FX_ONE);
    assert_eq!(x.cross(&y), z);
    assert_eq!(y.cross(&x), z.neg());
    let v = Fx3::new(3 * FX_ONE, 4 * FX_ONE, 0);
    assert_eq!(v.length(), 5 * FX_ONE);
}

#[test]
fn vector_normalize_unit_and_zero() {
    let v = Fx3::new(3 * FX_ONE, 4 * FX_ONE, 0);
    let u = v.normalize();
    assert_eq!(u, Fx3::new(39321, 52428, 0));
    let len = u.length();
    assert!((len - FX_ONE).abs() <= 2, "unit length = {len}");
    assert_eq!(Fx3::zero().normalize(), Fx3::zero());
}

#[test]
fn sine_cosine_reference_points() {
    assert_eq!(fx_sin(0), 0);
    let s = fx_sin(HALF_PI_FX);
    assert!((s - FX_ONE).abs() <= 32, "sin(pi/2) = {s}");
    let c = fx_cos(0);
    assert!((c - FX_ONE).abs() <= 32, "cos(0) = {c}");
    let sp = fx_sin(PI_FX);
    assert!(sp.abs() <= 32, "sin(pi) = {sp}");
    // Periodicity through range reduction.
    let far = fx_sin(HALF_PI_FX + 10 * TWO_PI_FX);
    assert!((far - s).abs() <= 2, "reduced sin = {far}");
    let neg = fx_sin(-HALF_PI_FX);
    assert!((neg + FX_ONE).abs() <= 32, "sin(-pi/2) = {neg}");
}

#[test]
fn tangent_of_22_5_degrees() {
    // 22.5 degrees = 0.3926991 rad = 25740 units; tan = 0.414214 = 27146.
    let t = fx_tan(25740);
    assert!((t - 27146).abs() <= 64, "tan(22.5 deg) = {t}");
}

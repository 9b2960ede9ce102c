use rasterizer::fixed::{Fixed, SCALE};
use rasterizer::math::{
    fixed_compare, fixed_cos, fixed_equals, fixed_sin, identity_matrix, mat_mul, mat_vec_mul,
    translation_matrix, x_rotation_matrix, Vec3, Vec4, HALF_PI_RAW, PI_RAW,
};
use std::cmp::Ordering;

fn fx(v: f64) -> Fixed {
    Fixed::from_raw((v * 100_000_000.0).round() as i64)
}

#[test]
fn test_f32_comparison() {
    assert_eq!(fixed_compare(fx(0.000001), fx(0.0)), Some(Ordering::Equal));
    assert_eq!(fixed_compare(fx(0.0), fx(0.000001)), Some(Ordering::Equal));
    assert_eq!(fixed_compare(fx(-0.000001), fx(0.0)), Some(Ordering::Equal));
    assert_eq!(fixed_compare(fx(0.0), fx(-0.000001)), Some(Ordering::Equal));
    assert_eq!(fixed_compare(fx(-0.000001), fx(-0.00000001)), Some(Ordering::Equal));
    assert_eq!(fixed_compare(fx(-0.00000001), fx(-0.000001)), Some(Ordering::Equal));
    assert_eq!(fixed_compare(fx(0.1), fx(0.0)), Some(Ordering::Greater));
    assert_eq!(fixed_compare(fx(0.0), fx(0.1)), Some(Ordering::Less));
}

#[test]
fn test_fixed_equals_epsilon() {
    assert!(fixed_equals(fx(1.0), fx(1.0)));
    assert!(fixed_equals(fx(1.0), Fixed::from_raw(SCALE + 999)));
    assert!(!fixed_equals(fx(1.0), Fixed::from_raw(SCALE + 1000)));
}

#[test]
fn test_fixed_arithmetic_exact() {
    assert_eq!(Fixed::from_int(7).div(Fixed::from_int(2)), fx(3.5));
    assert_eq!(Fixed::from_int(-7).div(Fixed::from_int(2)), fx(-3.5));
    assert_eq!(fx(0.5).mul(fx(0.5)), fx(0.25));
    assert_eq!(fx(1.5).round_i32(), 2);
    assert_eq!(fx(-1.5).round_i32(), -2);
    assert_eq!(fx(1.9).trunc_i32(), 1);
    assert_eq!(fx(-1.9).trunc_i32(), -1);
}

#[test]
fn test_fixed_saturates() {
    let top = Fixed::from_raw(i64::MAX);
    assert_eq!(top.add(Fixed::one()).raw, i64::MAX);
    let bottom = Fixed::from_raw(i64::MIN);
    assert_eq!(bottom.sub(Fixed::one()).raw, i64::MIN);
}

#[test]
fn test_trig_anchor_values() {
    assert_eq!(fixed_sin(Fixed::from_raw(0)).raw, 0);
    // The rational approximation is within about 2e-3 of the true values.
    let tol = 200_000;
    assert!((fixed_cos(Fixed::from_raw(0)).raw - SCALE).abs() < tol);
    assert!((fixed_sin(Fixed::from_raw(HALF_PI_RAW)).raw - SCALE).abs() < tol);
    assert!(fixed_sin(Fixed::from_raw(PI_RAW)).raw.abs() < tol);
    assert!((fixed_sin(Fixed::from_raw(PI_RAW + HALF_PI_RAW)).raw + SCALE).abs() < tol);
    // A negative angle folds into the same turn.
    assert!((fixed_sin(Fixed::from_raw(-HALF_PI_RAW)).raw + SCALE).abs() < tol);
}

#[test]
fn test_trig_stays_in_unit_range() {
    let mut a: i64 = -10 * SCALE;
    while a <= 10 * SCALE {
        let s = fixed_sin(Fixed::from_raw(a));
        let c = fixed_cos(Fixed::from_raw(a));
        assert!(-SCALE <= s.raw && s.raw <= SCALE);
        assert!(-SCALE <= c.raw && c.raw <= SCALE);
        a += 7_654_321;
    }
}

#[test]
fn test_translation_matrix_moves_points_not_directions() {
    let m = translation_matrix(Vec3 { x: fx(10.0), y: fx(-3.0), z: fx(2.0) });
    let p = Vec4 { x: fx(1.0), y: fx(2.0), z: fx(3.0), w: fx(1.0) };
    let moved = mat_vec_mul(&m, &p);
    assert_eq!(moved.x, fx(11.0));
    assert_eq!(moved.y, fx(-1.0));
    assert_eq!(moved.z, fx(5.0));
    assert_eq!(moved.w, fx(1.0));
    let d = Vec4 { x: fx(1.0), y: fx(2.0), z: fx(3.0), w: fx(0.0) };
    let slid = mat_vec_mul(&m, &d);
    assert_eq!(slid.x, fx(1.0));
    assert_eq!(slid.y, fx(2.0));
    assert_eq!(slid.z, fx(3.0));
}

#[test]
fn test_identity_matrix_multiplication() {
    let id = identity_matrix();
    let m = x_rotation_matrix(fx(0.7));
    assert_eq!(mat_mul(&id, &m), m);
    assert_eq!(mat_mul(&m, &id), m);
}

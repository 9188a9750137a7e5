//! The fixed-point scalar layer: exact products, square roots, and the
//! quadrant-corrected arc tangent.

use industrial_robots::fx::{deg_to_rad, fx_atan2, fx_mul, fx_sqrt, rad_to_deg, FX_ONE};
use industrial_robots::transform::{FxVec3, Transform};

const SCALE: f64 = 281474976710656.0;

fn to_fx(v: f64) -> i64 {
    (v * SCALE).round() as i64
}

fn to_f64(b: i64) -> f64 {
    (b as f64) / SCALE
}

#[test]
fn products_are_exact_floors() {
    assert_eq!(fx_mul(FX_ONE, FX_ONE), FX_ONE);
    assert_eq!(fx_mul(2 * FX_ONE, 3 * FX_ONE), 6 * FX_ONE);
    assert_eq!(fx_mul(-FX_ONE, FX_ONE / 2), -FX_ONE / 2);
    // 0.5 * 0.5 = 0.25 exactly in binary fixed point.
    assert_eq!(fx_mul(FX_ONE / 2, FX_ONE / 2), FX_ONE / 4);
}

#[test]
fn square_roots_are_floor_exact() {
    assert_eq!(fx_sqrt(4 * FX_ONE), 2 * FX_ONE);
    assert_eq!(fx_sqrt(0), 0);
    let r = fx_sqrt(2 * FX_ONE);
    assert!((to_f64(r) - std::f64::consts::SQRT_2).abs() <= 1e-9);
}

#[test]
fn degree_radian_constants_are_faithful() {
    let pi_fx = deg_to_rad(to_fx(180.0));
    assert!((to_f64(pi_fx) - std::f64::consts::PI).abs() <= 1e-9);
    let back = rad_to_deg(pi_fx);
    assert!((to_f64(back) - 180.0).abs() <= 1e-9);
}

#[test]
fn atan2_covers_all_quadrants() {
    let q1 = fx_atan2(FX_ONE, FX_ONE);
    let q2 = fx_atan2(FX_ONE, -FX_ONE);
    let q3 = fx_atan2(-FX_ONE, -FX_ONE);
    let q4 = fx_atan2(-FX_ONE, FX_ONE);
    let quarter = std::f64::consts::FRAC_PI_4;
    assert!((to_f64(q1) - quarter).abs() <= 1e-9);
    assert!((to_f64(q2) - 3.0 * quarter).abs() <= 1e-9);
    assert!((to_f64(q3) + 3.0 * quarter).abs() <= 1e-9);
    assert!((to_f64(q4) + quarter).abs() <= 1e-9);
    assert_eq!(fx_atan2(0, 0), 0);
}

#[test]
fn identity_composes_exactly() {
    let axis = FxVec3 { x: 0, y: 0, z: FX_ONE };
    let t = Transform::from_axis_angle(&axis, to_fx(0.7)).unwrap();
    let id = Transform::identity();
    assert_eq!(id.compose(&t).unwrap(), t);
    assert_eq!(t.compose(&id).unwrap(), t);
}

#[test]
fn inverse_undoes_a_rotation() {
    let axis = FxVec3 { x: 0, y: FX_ONE, z: 0 };
    let t = Transform::from_axis_angle(&axis, to_fx(1.1)).unwrap();
    let inv = t.inverse().unwrap();
    let round = t.compose(&inv).unwrap();
    assert!((to_f64(round.rot.m00) - 1.0).abs() <= 1e-9);
    assert!((to_f64(round.rot.m11) - 1.0).abs() <= 1e-9);
    assert!((to_f64(round.rot.m22) - 1.0).abs() <= 1e-9);
    assert!(to_f64(round.rot.m01).abs() <= 1e-9);
    assert!(to_f64(round.t.x).abs() <= 1e-9);
}

#[test]
fn apply_rotates_and_translates() {
    let axis = FxVec3 { x: 0, y: 0, z: FX_ONE };
    let quarter = to_fx(std::f64::consts::FRAC_PI_2);
    let mut t = Transform::from_axis_angle(&axis, quarter).unwrap();
    t.t = FxVec3 { x: to_fx(10.0), y: 0, z: 0 };
    let p = FxVec3 { x: to_fx(1.0), y: 0, z: 0 };
    let q = t.apply(&p).unwrap();
    assert!((to_f64(q.x) - 10.0).abs() <= 1e-9);
    assert!((to_f64(q.y) - 1.0).abs() <= 1e-9);
    let v = t.apply_to_vector(&p).unwrap();
    assert!(to_f64(v.x).abs() <= 1e-9);
    assert!((to_f64(v.y) - 1.0).abs() <= 1e-9);
}

#[test]
fn compose_reports_out_of_range() {
    let mut a = Transform::identity();
    a.t = FxVec3 { x: 4000 * FX_ONE, y: 0, z: 0 };
    assert_eq!(
        a.compose(&a).unwrap_err(),
        industrial_robots::KinError::OutOfRange
    );
}

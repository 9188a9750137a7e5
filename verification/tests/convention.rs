//! The joint-angle and pose conventions: round trips, gimbal-lock
//! behaviour, and rejected inputs.

use industrial_robots::fanuc::{joints_to_rad, rad_to_joints};
use industrial_robots::helpers::row_slice_to_iso;
use industrial_robots::poses::XyzWpr;
use industrial_robots::transform::{FxVec3, Transform};
use industrial_robots::KinError;

const SCALE: f64 = 281474976710656.0;

fn to_fx(v: f64) -> i64 {
    (v * SCALE).round() as i64
}

fn to_f64(b: i64) -> f64 {
    (b as f64) / SCALE
}

#[test]
fn joint_convention_round_trip() {
    let j = [
        to_fx(10.5),
        to_fx(-20.25),
        to_fx(33.0),
        to_fx(179.99),
        to_fx(-100.0),
        to_fx(360.5),
    ];
    let rads = joints_to_rad(&j);
    let back = rad_to_joints(&rads);
    for i in 0..6 {
        let d = (to_f64(back[i]) - to_f64(j[i])).abs();
        assert!(d <= 1e-9, "component {} differs by {}", i, d);
    }
}

#[test]
fn joint_convention_couples_j2_into_j3() {
    let j = [0, to_fx(30.0), to_fx(10.0), 0, 0, 0];
    let rads = joints_to_rad(&j);
    let expected_j3 = (30.0_f64 + 10.0).to_radians();
    let d = (to_f64(rads[2]) - expected_j3).abs();
    assert!(d <= 1e-9, "coupled J3 differs by {}", d);
}

#[test]
fn pose_round_trip() {
    let pose = XyzWpr::new(
        to_fx(100.0),
        to_fx(200.0),
        to_fx(300.0),
        to_fx(30.0),
        to_fx(40.0),
        to_fx(50.0),
    );
    let t = pose.to_isometry().unwrap();
    let back = XyzWpr::from_isometry(&t);
    assert_eq!(back.x, pose.x);
    assert_eq!(back.y, pose.y);
    assert_eq!(back.z, pose.z);
    assert!((to_f64(back.w) - 30.0).abs() <= 1e-6);
    assert!((to_f64(back.p) - 40.0).abs() <= 1e-6);
    assert!((to_f64(back.r) - 50.0).abs() <= 1e-6);
}

#[test]
fn transform_round_trip_via_pose() {
    let pose = XyzWpr::new(
        to_fx(-50.0),
        to_fx(75.0),
        to_fx(20.0),
        to_fx(-120.0),
        to_fx(35.0),
        to_fx(170.0),
    );
    let t = pose.to_isometry().unwrap();
    let back = XyzWpr::from_isometry(&t);
    let t2 = back.to_isometry().unwrap();
    let entries = [
        (t.rot.m00, t2.rot.m00),
        (t.rot.m01, t2.rot.m01),
        (t.rot.m02, t2.rot.m02),
        (t.rot.m10, t2.rot.m10),
        (t.rot.m11, t2.rot.m11),
        (t.rot.m12, t2.rot.m12),
        (t.rot.m20, t2.rot.m20),
        (t.rot.m21, t2.rot.m21),
        (t.rot.m22, t2.rot.m22),
        (t.t.x, t2.t.x),
        (t.t.y, t2.t.y),
        (t.t.z, t2.t.z),
    ];
    for (a, b) in entries.iter() {
        assert!((to_f64(*a) - to_f64(*b)).abs() <= 1e-6);
    }
}

#[test]
fn approx_eq_accepts_gimbal_ambiguity() {
    let a = XyzWpr::new(0, 0, 0, to_fx(180.0), to_fx(-90.0), to_fx(0.0));
    let b = XyzWpr::new(0, 0, 0, to_fx(90.0), to_fx(-90.0), to_fx(90.0));
    assert!(a.approx_eq(&b, to_fx(1e-6)));
}

#[test]
fn approx_eq_accepts_full_turn() {
    let a = XyzWpr::new(to_fx(10.0), to_fx(20.0), to_fx(30.0), to_fx(370.0), 0, 0);
    let b = XyzWpr::new(to_fx(10.0), to_fx(20.0), to_fx(30.0), to_fx(10.0), 0, 0);
    assert!(a.approx_eq(&b, to_fx(1e-6)));
}

#[test]
fn approx_eq_rejects_different_rotations() {
    let a = XyzWpr::new(0, 0, 0, to_fx(180.0), to_fx(-90.0), to_fx(0.0));
    let b = XyzWpr::new(0, 0, 0, to_fx(0.0), to_fx(-90.0), to_fx(0.0));
    assert!(!a.approx_eq(&b, to_fx(1e-6)));
}

#[test]
fn approx_eq_rejects_moved_position() {
    let a = XyzWpr::new(0, 0, 0, 0, 0, 0);
    let b = XyzWpr::new(to_fx(1.0), 0, 0, 0, 0, 0);
    assert!(!a.approx_eq(&b, to_fx(1e-6)));
}

#[test]
fn gimbal_decomposition_is_deterministic() {
    // The FANUC flange convention matrix sits exactly at the pitch
    // singularity; the tie-break fixes R to zero.
    let bits: Vec<i64> = [
        0.0, 0.0, 1.0, 0.0, 0.0, -1.0, 0.0, 0.0, 1.0, 0.0, 0.0, 0.0, 0.0, 0.0, 0.0, 1.0,
    ]
    .iter()
    .map(|v| to_fx(*v))
    .collect();
    let t = row_slice_to_iso(&bits).unwrap();
    let pose = XyzWpr::from_isometry(&t);
    assert_eq!(pose.r, 0);
    assert!((to_f64(pose.p) - (-90.0)).abs() <= 1e-9);
    assert!((to_f64(pose.w).abs() - 180.0).abs() <= 1e-6);
}

#[test]
fn row_slice_rejects_wrong_length() {
    let bits = vec![0i64; 15];
    assert_eq!(row_slice_to_iso(&bits).unwrap_err(), KinError::BadLength);
}

#[test]
fn row_slice_rejects_bad_last_row() {
    let mut rows = [0.0f64; 16];
    rows[0] = 1.0;
    rows[5] = 1.0;
    rows[10] = 1.0;
    rows[15] = 1.0;
    rows[12] = 0.5;
    let bits: Vec<i64> = rows.iter().map(|v| to_fx(*v)).collect();
    assert_eq!(row_slice_to_iso(&bits).unwrap_err(), KinError::NotHomogeneous);
}

#[test]
fn row_slice_rejects_non_orthonormal() {
    let rows = [
        2.0, 0.0, 0.0, 0.0, 0.0, 1.0, 0.0, 0.0, 0.0, 0.0, 1.0, 0.0, 0.0, 0.0, 0.0, 1.0,
    ];
    let bits: Vec<i64> = rows.iter().map(|v| to_fx(*v)).collect();
    assert_eq!(row_slice_to_iso(&bits).unwrap_err(), KinError::NotOrthonormal);
}

#[test]
fn pose_rejects_out_of_range_angle() {
    let pose = XyzWpr::new(0, 0, 0, to_fx(5000.0), 0, 0);
    assert_eq!(pose.to_isometry().unwrap_err(), KinError::OutOfRange);
}

#[test]
fn axis_angle_rejects_non_unit_axis() {
    let axis = FxVec3 { x: to_fx(1.0), y: to_fx(1.0), z: 0 };
    assert_eq!(
        Transform::from_axis_angle(&axis, 0).unwrap_err(),
        KinError::NotUnitAxis
    );
}

#[test]
fn axis_angle_matches_reference_sine() {
    let axis = FxVec3 { x: 0, y: 0, z: to_fx(1.0) };
    let t = Transform::from_axis_angle(&axis, to_fx(10.0_f64.to_radians())).unwrap();
    assert!((to_f64(t.rot.m00) - 0.984807753012208).abs() <= 1e-9);
    assert!((to_f64(t.rot.m01) - (-0.17364817766693028)).abs() <= 1e-9);
    assert!((to_f64(t.rot.m10) - 0.17364817766693028).abs() <= 1e-9);
    assert!((to_f64(t.rot.m22) - 1.0).abs() == 0.0);
}

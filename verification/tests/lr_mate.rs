//! The LR Mate 200iD model: home pose, base-joint behaviour, and the
//! plain-chain scenario from the design data.

use industrial_robots::chain::{Chain, Joint, JointKind};
use industrial_robots::fanuc::kinematic_angles;
use industrial_robots::poses::XyzWpr;
use industrial_robots::transform::{FxVec3, Transform};
use industrial_robots::FanucLrMate200id;

const SCALE: f64 = 281474976710656.0;

fn to_fx(v: f64) -> i64 {
    (v * SCALE).round() as i64
}

fn to_f64(b: i64) -> f64 {
    (b as f64) / SCALE
}

#[test]
fn fanuc_at_home() {
    let mut robot = FanucLrMate200id::new();
    robot.set_joints(&[0, 0, 0, 0, 0, 0]);
    let transform = robot.end_pose().unwrap();
    let expected = XyzWpr::new(to_fx(465.0), 0, to_fx(365.0), to_fx(180.0), to_fx(-90.0), 0);
    assert!(transform.approx_eq(&expected, to_fx(1e-6)));
}

#[test]
fn poses_reports_six_frames() {
    let mut robot = FanucLrMate200id::new();
    robot.set_joints(&[to_fx(5.0), to_fx(-10.0), to_fx(15.0), 0, to_fx(20.0), 0]);
    let poses = robot.poses().unwrap();
    assert_eq!(poses.len(), 6);
    let end = robot.end_pose().unwrap();
    assert_eq!(poses[5], end);
}

fn translation_joint(axis: FxVec3, x: f64, y: f64, z: f64) -> Joint {
    let ident = Transform::identity();
    Joint {
        kind: JointKind::Rotational { axis },
        offset: Transform {
            rot: ident.rot,
            t: FxVec3 { x: to_fx(x), y: to_fx(y), z: to_fx(z) },
        },
    }
}

/// A chain with offsets (50,0,0), (0,0,330), (0,0,35), (335,0,0),
/// (80,0,0) along its five successive joints and axes z, y, -y, x, y, x
/// must stand at (465, 0, 365) when every kinematic angle is zero.
#[test]
fn plain_chain_home_position() {
    let one = to_fx(1.0);
    let axis_x = FxVec3 { x: one, y: 0, z: 0 };
    let axis_y = FxVec3 { x: 0, y: one, z: 0 };
    let axis_ny = FxVec3 { x: 0, y: -one, z: 0 };
    let axis_z = FxVec3 { x: 0, y: 0, z: one };
    let joints = vec![
        translation_joint(axis_z, 0.0, 0.0, 0.0),
        translation_joint(axis_y, 50.0, 0.0, 0.0),
        translation_joint(axis_ny, 0.0, 0.0, 330.0),
        translation_joint(axis_x, 0.0, 0.0, 35.0),
        translation_joint(axis_y, 335.0, 0.0, 0.0),
        translation_joint(axis_x, 80.0, 0.0, 0.0),
    ];
    let chain = Chain::new(joints, None).unwrap();
    let flange = chain.forward(&[0i64; 6]).unwrap();
    assert!((to_f64(flange.t.x) - 465.0).abs() <= 1e-6);
    assert!(to_f64(flange.t.y).abs() <= 1e-6);
    assert!((to_f64(flange.t.z) - 365.0).abs() <= 1e-6);
}

#[test]
fn chain_needs_exactly_six_joints() {
    let one = to_fx(1.0);
    let axis_z = FxVec3 { x: 0, y: 0, z: one };
    let joints = vec![translation_joint(axis_z, 0.0, 0.0, 0.0); 5];
    assert_eq!(
        Chain::new(joints, None).unwrap_err(),
        industrial_robots::KinError::BadLength
    );
}

#[test]
fn chain_rejects_non_unit_axis() {
    let one = to_fx(1.0);
    let bad = FxVec3 { x: one, y: one, z: 0 };
    let joints = vec![translation_joint(bad, 0.0, 0.0, 0.0); 6];
    assert_eq!(
        Chain::new(joints, None).unwrap_err(),
        industrial_robots::KinError::NotUnitAxis
    );
}

/// Rotating only joint 1 by ten degrees from home moves the flange in
/// X and Y only, and shifts the yaw of the controller pose by exactly
/// ten degrees.
#[test]
fn base_joint_turn_keeps_z_and_shifts_yaw() {
    let mut robot = FanucLrMate200id::new();
    robot.set_joints(&[0, 0, 0, 0, 0, 0]);
    let home = robot.end_pose().unwrap();
    robot.set_joints(&[to_fx(10.0), 0, 0, 0, 0, 0]);
    let turned = robot.end_pose().unwrap();

    // Z is unchanged, exactly: the base joint spins about the world Z.
    assert_eq!(home.z, turned.z);

    // X and Y move to the rotated home position.
    let r10 = 10.0_f64.to_radians();
    assert!((to_f64(turned.x) - 465.0 * r10.cos()).abs() <= 1e-6);
    assert!((to_f64(turned.y) - 465.0 * r10.sin()).abs() <= 1e-6);

    // At the pitch singularity the whole yaw lands in W with R fixed to
    // zero; 180 + 10 wraps to -170 degrees.  (The sign of 180 itself
    // depends on the rounding of the home orientation.)
    assert!((to_f64(home.w).abs() - 180.0).abs() <= 1e-6);
    assert!((to_f64(turned.w) - (-170.0)).abs() <= 1e-6);
    assert_eq!(turned.r, 0);

    // The two poses differ by exactly the ten-degree base rotation, so
    // their orientations must not compare equal.
    assert!(!home.approx_eq(&turned, to_fx(1e-6)));
}

/// With an identity fifth-joint basis the alternative parameterisation
/// stands at the same home position.
#[test]
fn alternative_parameterisation_home_position() {
    let chain = industrial_robots::robot::fanuc_lr_mate_200id2(0, 0, 0).unwrap();
    let rads = kinematic_angles(&[0i64; 6]).unwrap();
    let flange = chain.forward(&rads).unwrap();
    assert!((to_f64(flange.t.x) - 465.0).abs() <= 1e-6);
    assert!(to_f64(flange.t.y).abs() <= 1e-6);
    assert!((to_f64(flange.t.z) - 365.0).abs() <= 1e-6);
}

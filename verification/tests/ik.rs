//! The inverse-kinematics orchestration: target validation,
//! reachability, and candidate mapping.

use industrial_robots::fanuc::crx::Crx;
use industrial_robots::helpers::row_slice_to_iso;
use industrial_robots::transform::FxVec3;
use industrial_robots::KinError;

const SCALE: f64 = 281474976710656.0;

fn to_fx(v: f64) -> i64 {
    (v * SCALE).round() as i64
}

fn to_f64(b: i64) -> f64 {
    (b as f64) / SCALE
}

/// The solver parameterisation of a model is fixed at construction: the
/// axis vectors and link offsets handed to the analytic solver carry the
/// datasheet geometry.
#[test]
fn solver_parameterisation_is_fixed() {
    let robot = Crx::new_5ia();
    let zero = FxVec3 { x: 0, y: 0, z: 0 };
    let one = to_fx(1.0);
    assert_eq!(robot.p_vectors[0], zero);
    assert_eq!(robot.p_vectors[1], zero);
    assert_eq!(robot.p_vectors[2], FxVec3 { x: 0, y: 0, z: to_fx(410.0) });
    assert_eq!(robot.p_vectors[3], zero);
    assert_eq!(robot.p_vectors[4], FxVec3 { x: to_fx(430.0), y: to_fx(-130.0), z: 0 });
    assert_eq!(robot.p_vectors[5], FxVec3 { x: to_fx(145.0), y: 0, z: 0 });
    assert_eq!(robot.p_vectors[6], zero);
    assert_eq!(robot.h_vectors[0], FxVec3 { x: 0, y: 0, z: one });
    assert_eq!(robot.h_vectors[1], FxVec3 { x: 0, y: one, z: 0 });
    assert_eq!(robot.h_vectors[2], FxVec3 { x: 0, y: -one, z: 0 });
    assert_eq!(robot.h_vectors[3], FxVec3 { x: -one, y: 0, z: 0 });
    assert_eq!(robot.h_vectors[4], FxVec3 { x: 0, y: -one, z: 0 });
    assert_eq!(robot.h_vectors[5], FxVec3 { x: -one, y: 0, z: 0 });
}

/// A target position farther from the chain origin than the sum of all
/// link lengths yields an empty candidate list.
#[test]
fn unreachable_pose() {
    let robot = Crx::new_5ia();
    let rows = [
        1.0, 0.0, 0.0, 2000.0, 0.0, 1.0, 0.0, 0.0, 0.0, 0.0, 1.0, 0.0, 0.0, 0.0, 0.0, 1.0,
    ];
    let bits: Vec<i64> = rows.iter().map(|v| to_fx(*v)).collect();
    let target = row_slice_to_iso(&bits).unwrap();
    let outcome = robot.ik_request(&target).unwrap();
    assert!(outcome.is_none());
}

#[test]
fn reachable_pose_is_reframed() {
    let robot = Crx::new_5ia();
    let target = robot.forward(&[0i64; 6]).unwrap();
    let (rot, t) = robot.ik_request(&target).unwrap().expect("home must be reachable");
    // Removing the flange adjustment leaves the translation untouched
    // and brings the rotation back to the identity.
    assert!((to_f64(t.x) - 575.0).abs() <= 1e-6);
    assert!((to_f64(t.y) - (-130.0)).abs() <= 1e-6);
    assert!((to_f64(t.z) - 410.0).abs() <= 1e-6);
    assert!((to_f64(rot.m00) - 1.0).abs() <= 1e-6);
    assert!((to_f64(rot.m11) - 1.0).abs() <= 1e-6);
    assert!((to_f64(rot.m22) - 1.0).abs() <= 1e-6);
    assert!(to_f64(rot.m01).abs() <= 1e-6);
}

#[test]
fn non_orthonormal_target_is_rejected() {
    let robot = Crx::new_5ia();
    let mut target = robot.forward(&[0i64; 6]).unwrap();
    target.rot.m00 = to_fx(2.0);
    assert_eq!(robot.ik_request(&target).unwrap_err(), KinError::NotOrthonormal);
}

/// A candidate marked least-squares by the solver keeps that flag after
/// conversion to controller form.
#[test]
fn least_squares_tag_preserved() {
    let exact = ([0i64; 6], false);
    let ls = (
        [
            to_fx(0.1),
            to_fx(0.2),
            to_fx(0.3),
            to_fx(-0.4),
            to_fx(0.5),
            to_fx(-0.6),
        ],
        true,
    );
    let solutions = Crx::ik_solutions(&vec![exact, ls]).unwrap();
    assert_eq!(solutions.len(), 2);
    assert!(!solutions[0].least_squares);
    assert!(solutions[1].least_squares);
}

#[test]
fn candidates_convert_with_coupling() {
    let cand = ([0, to_fx(0.2), to_fx(0.3), 0, 0, 0], true);
    let solutions = Crx::ik_solutions(&vec![cand]).unwrap();
    let j = &solutions[0].joints;
    let d1 = 0.2_f64.to_degrees();
    let d2 = 0.3_f64.to_degrees();
    assert!((to_f64(j[1]) - d1).abs() <= 1e-9);
    assert!((to_f64(j[2]) - (d2 - d1)).abs() <= 1e-9);
    assert!(to_f64(j[0]).abs() <= 1e-9);
}

#[test]
fn oversized_candidate_is_rejected() {
    let cand = ([i64::MAX, 0, 0, 0, 0, 0], false);
    assert_eq!(Crx::ik_solutions(&vec![cand]).unwrap_err(), KinError::OutOfRange);
}

#[test]
fn o4_circle_carries_points_into_the_end_frame() {
    let robot = Crx::new_5ia();
    let end_frame = robot.forward(&[0i64; 6]).unwrap();
    let circle = robot.o4_circle(&end_frame).unwrap();
    assert_eq!(circle.len(), 500);
    // At angle zero the local point is (130, 0, -145); the home flange
    // frame carries it to (430, -130, 540).
    assert!((to_f64(circle[0].x) - 430.0).abs() <= 1e-6);
    assert!((to_f64(circle[0].y) - (-130.0)).abs() <= 1e-6);
    assert!((to_f64(circle[0].z) - 540.0).abs() <= 1e-6);
    // A quarter of the way round, the sine and cosine swap roles: the
    // local point is (0, 130, -145), carried to (430, -260, 410).
    let q = &circle[125];
    assert!((to_f64(q.x) - 430.0).abs() <= 1e-6);
    assert!((to_f64(q.y) - (-260.0)).abs() <= 1e-6);
    assert!((to_f64(q.z) - 410.0).abs() <= 1e-6);
}

//! Forward kinematics of the CRX series against controller reference
//! values.

use industrial_robots::fanuc::crx::Crx;
use industrial_robots::helpers::row_slice_to_iso;
use industrial_robots::transform::Transform;

const SCALE: f64 = 281474976710656.0;

fn to_fx(v: f64) -> i64 {
    (v * SCALE).round() as i64
}

fn to_f64(b: i64) -> f64 {
    (b as f64) / SCALE
}

fn iso_from_rows(rows: &[f64; 16]) -> Transform {
    let bits: Vec<i64> = rows.iter().map(|v| to_fx(*v)).collect();
    row_slice_to_iso(&bits).expect("reference matrix must be a valid isometry")
}

fn assert_iso_close(a: &Transform, b: &Transform, eps: f64) {
    let pairs = [
        (a.rot.m00, b.rot.m00),
        (a.rot.m01, b.rot.m01),
        (a.rot.m02, b.rot.m02),
        (a.rot.m10, b.rot.m10),
        (a.rot.m11, b.rot.m11),
        (a.rot.m12, b.rot.m12),
        (a.rot.m20, b.rot.m20),
        (a.rot.m21, b.rot.m21),
        (a.rot.m22, b.rot.m22),
        (a.t.x, b.t.x),
        (a.t.y, b.t.y),
        (a.t.z, b.t.z),
    ];
    for (x, y) in pairs.iter() {
        let d = (to_f64(*x) - to_f64(*y)).abs();
        assert!(d <= eps, "difference {} exceeds {}", d, eps);
    }
}

fn deg(v: f64) -> i64 {
    to_fx(v)
}

#[test]
fn zero_position() {
    let j = [deg(0.0), deg(0.0), deg(0.0), deg(0.0), deg(0.0), deg(0.0)];
    let expected = iso_from_rows(&[
        0.0, 0.0, 1.0, 575.0, 0.0, -1.0, 0.0, -130.0, 1.0, 0.0, 0.0, 410.0, 0.0, 0.0, 0.0, 1.0,
    ]);
    let robot = Crx::new_5ia();
    let fwd = robot.forward(&j).unwrap();
    assert_iso_close(&expected, &fwd, 1e-6);
}

#[test]
fn only_j1() {
    let j = [deg(10.0), deg(0.0), deg(0.0), deg(0.0), deg(0.0), deg(0.0)];
    let expected = iso_from_rows(&[
        0.0,
        0.1736481776669304,
        0.984807753012208,
        588.8387210787206,
        0.0,
        -0.984807753012208,
        0.1736481776669304,
        -28.17730573310209,
        1.0,
        0.0,
        0.0,
        410.0,
        0.0,
        0.0,
        0.0,
        1.0,
    ]);
    let robot = Crx::new_5ia();
    let fwd = robot.forward(&j).unwrap();
    assert_iso_close(&expected, &fwd, 1e-6);
}

#[test]
fn only_j2() {
    let j = [deg(0.0), deg(10.0), deg(0.0), deg(0.0), deg(0.0), deg(0.0)];
    let expected = iso_from_rows(&[
        0.0,
        0.0,
        1.0,
        646.1957528434414,
        0.0,
        -1.0,
        0.0,
        -130.0,
        1.0,
        0.0,
        0.0,
        403.7711787350052,
        0.0,
        0.0,
        0.0,
        1.0,
    ]);
    let robot = Crx::new_5ia();
    let fwd = robot.forward(&j).unwrap();
    assert_iso_close(&expected, &fwd, 1e-6);
}

#[test]
fn only_j3() {
    let j = [deg(0.0), deg(0.0), deg(10.0), deg(0.0), deg(0.0), deg(0.0)];
    let expected = iso_from_rows(&[
        -0.17364817766693028,
        0.0,
        0.984807753012208,
        566.2644579820196,
        0.0,
        -1.0,
        0.0,
        -130.0,
        0.984807753012208,
        0.0,
        0.17364817766693028,
        509.84770215848494,
        0.0,
        0.0,
        0.0,
        1.0,
    ]);
    let robot = Crx::new_5ia();
    let fwd = robot.forward(&j).unwrap();
    assert_iso_close(&expected, &fwd, 1e-6);
}

#[test]
fn only_j4() {
    let j = [deg(0.0), deg(0.0), deg(0.0), deg(10.0), deg(0.0), deg(0.0)];
    let expected = iso_from_rows(&[
        0.0,
        0.0,
        1.0,
        575.0,
        0.17364817766693028,
        -0.984807753012208,
        0.0,
        -128.02500789158705,
        0.984807753012208,
        0.17364817766693028,
        0.0,
        432.5742630967009,
        0.0,
        0.0,
        0.0,
        1.0,
    ]);
    let robot = Crx::new_5ia();
    let fwd = robot.forward(&j).unwrap();
    assert_iso_close(&expected, &fwd, 1e-6);
}

#[test]
fn only_j5() {
    let j = [deg(0.0), deg(0.0), deg(0.0), deg(0.0), deg(10.0), deg(0.0)];
    let expected = iso_from_rows(&[
        -0.17364817766693028,
        0.0,
        0.984807753012208,
        572.7971241867701,
        0.0,
        -1.0,
        0.0,
        -130.0,
        0.984807753012208,
        0.0,
        0.17364817766693028,
        435.1789857617049,
        0.0,
        0.0,
        0.0,
        1.0,
    ]);
    let robot = Crx::new_5ia();
    let fwd = robot.forward(&j).unwrap();
    assert_iso_close(&expected, &fwd, 1e-6);
}

#[test]
fn only_j6() {
    let j = [deg(0.0), deg(0.0), deg(0.0), deg(0.0), deg(0.0), deg(10.0)];
    let expected = iso_from_rows(&[
        0.0,
        0.0,
        1.0,
        575.0,
        0.17364817766693028,
        -0.984807753012208,
        0.0,
        -130.0,
        0.984807753012208,
        0.17364817766693028,
        0.0,
        410.0,
        0.0,
        0.0,
        0.0,
        1.0,
    ]);
    let robot = Crx::new_5ia();
    let fwd = robot.forward(&j).unwrap();
    assert_iso_close(&expected, &fwd, 1e-6);
}

#[test]
fn crx10ia_zero_position() {
    let j = [0i64; 6];
    let expected = iso_from_rows(&[
        0.0, 0.0, 1.0, 700.0, 0.0, -1.0, 0.0, -150.0, 1.0, 0.0, 0.0, 540.0, 0.0, 0.0, 0.0, 1.0,
    ]);
    let robot = Crx::new_10ia();
    let fwd = robot.forward(&j).unwrap();
    assert_iso_close(&expected, &fwd, 1e-6);
}

#[test]
fn forward_is_deterministic() {
    let j = [deg(12.5), deg(-33.0), deg(47.25), deg(5.0), deg(-80.0), deg(110.0)];
    let robot = Crx::new_5ia();
    let a = robot.forward(&j).unwrap();
    let b = robot.forward(&j).unwrap();
    assert_eq!(a, b);
}

#[test]
fn forward_with_links_matches_forward() {
    let j = [deg(10.0), deg(20.0), deg(-15.0), deg(40.0), deg(5.0), deg(-60.0)];
    let robot = Crx::new_5ia();
    let frames = robot.forward_with_links(&j).unwrap();
    let fwd = robot.forward(&j).unwrap();
    assert_eq!(frames.len(), 6);
    assert_eq!(frames[5], fwd);
}

#[test]
fn forward_rejects_out_of_range_angles() {
    let robot = Crx::new_5ia();
    let j = [i64::MAX, 0, 0, 0, 0, 0];
    assert_eq!(
        robot.forward(&j).unwrap_err(),
        industrial_robots::KinError::OutOfRange
    );
}

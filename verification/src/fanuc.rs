//! FANUC-family conventions.
//!
//! Two things are specific to this robot family: the fixed flange
//! orientation convention (`end_adjust`), and the J2/J3 coupling of the
//! joint-angle display (`joints_to_rad` / `rad_to_joints`).  Actuating
//! J2 also displaces J3's reference frame, so the kinematic model needs
//! the absolute forearm angle where the controller displays the relative
//! one: the conversion to kinematic form adds J2 into J3, and the
//! conversion back subtracts it — an exactly self-inverse adjustment.

use crate::fx::{
    deg_to_rad, fx_mul_val, fxs, lemma_deg_rad_round_trip, rad_to_deg, FX_DEG_TO_RAD, FX_ONE,
    FX_RAD_TO_DEG, MAX_ANGLE_DEG, MAX_ANGLE_RAD,
};
use crate::transform::{transform_wf, FxMat3, FxVec3, Transform};
use vstd::arithmetic::div_mod::{
    lemma_fundamental_div_mod, lemma_fundamental_div_mod_converse,
};
use vstd::prelude::*;

pub mod crx;
pub mod crx_ik;

verus! {

/// The fixed rotation from the world frame to the FANUC flange
/// convention: flange Z pointing out, Y inverted, X pointing up.  A
/// half-turn about the diagonal between X and Z, whose matrix is exact
/// in fixed point.
pub open spec fn sp_end_adjust() -> Transform {
    Transform {
        rot: FxMat3 {
            m00: 0,
            m01: 0,
            m02: FX_ONE,
            m10: 0,
            m11: (-(FX_ONE as int)) as i64,
            m12: 0,
            m20: FX_ONE,
            m21: 0,
            m22: 0,
        },
        t: FxVec3 { x: 0, y: 0, z: 0 },
    }
}

/// The transformation which rotates the world coordinate system to the
/// FANUC flange convention, applied after the last joint of a chain.
pub fn end_adjust() -> (r: Transform)
    ensures
        r == sp_end_adjust(),
        transform_wf(r),
{
    Transform {
        rot: FxMat3 {
            m00: 0,
            m01: 0,
            m02: FX_ONE,
            m10: 0,
            m11: -FX_ONE,
            m12: 0,
            m20: FX_ONE,
            m21: 0,
            m22: 0,
        },
        t: FxVec3 { x: 0, y: 0, z: 0 },
    }
}

/// A degree carrier taken to radians.
pub open spec fn sp_deg_to_rad(x: int) -> int {
    fx_mul_val(x, FX_DEG_TO_RAD as int)
}

/// A radian carrier taken to degrees.
pub open spec fn sp_rad_to_deg(y: int) -> int {
    fx_mul_val(y, FX_RAD_TO_DEG as int)
}

/// A sequence of carriers as mathematical integers.
pub open spec fn seq_int(s: Seq<i64>) -> Seq<int> {
    s.map_values(|v: i64| v as int)
}

/// Controller joint angles (degrees, J3 displayed relative to J2) to
/// kinematic angles (radians, J3 absolute): convert each, then add the
/// converted J2 into J3.
pub open spec fn sp_joints_to_rad(j: Seq<int>) -> Seq<int> {
    Seq::new(
        6,
        |i: int|
            if i == 2 {
                sp_deg_to_rad(j[2]) + sp_deg_to_rad(j[1])
            } else {
                sp_deg_to_rad(j[i])
            },
    )
}

/// Kinematic joint angles back to controller form: convert each, then
/// subtract the converted J2 from J3.
pub open spec fn sp_rad_to_joints(y: Seq<int>) -> Seq<int> {
    Seq::new(
        6,
        |i: int|
            if i == 2 {
                sp_rad_to_deg(y[2]) - sp_rad_to_deg(y[1])
            } else {
                sp_rad_to_deg(y[i])
            },
    )
}

/// Convert FANUC controller joint angles from degrees to kinematic
/// radians, including the J2/J3 interaction quirk.  Total: radians are
/// always smaller carriers than degrees.
pub fn joints_to_rad(joints: &[i64; 6]) -> (r: [i64; 6])
    ensures
        forall|i: int| 0 <= i < 6 ==> r@[i] == sp_joints_to_rad(seq_int(joints@))[i],
        (forall|i: int|
            0 <= i < 6 ==> -MAX_ANGLE_DEG <= #[trigger] joints@[i] <= MAX_ANGLE_DEG) ==> forall|
            i: int,
        |
            0 <= i < 6 ==> -MAX_ANGLE_RAD <= #[trigger] r@[i] <= MAX_ANGLE_RAD,
{
    let r0 = deg_to_rad(joints[0]);
    let r1 = deg_to_rad(joints[1]);
    let r2 = deg_to_rad(joints[2]);
    let r3 = deg_to_rad(joints[3]);
    let r4 = deg_to_rad(joints[4]);
    let r5 = deg_to_rad(joints[5]);
    let r2c = r2 + r1;
    let out = [r0, r1, r2c, r3, r4, r5];
    proof {
        assert(forall|i: int| 0 <= i < 6 ==> out@[i] == sp_joints_to_rad(seq_int(joints@))[i]) by {
            assert(out@[0] == r0 && out@[1] == r1 && out@[2] == r2c && out@[3] == r3 && out@[4]
                == r4 && out@[5] == r5);
            assert(seq_int(joints@)[0] == joints@[0] as int);
            assert(seq_int(joints@)[1] == joints@[1] as int);
            assert(seq_int(joints@)[2] == joints@[2] as int);
            assert(seq_int(joints@)[3] == joints@[3] as int);
            assert(seq_int(joints@)[4] == joints@[4] as int);
            assert(seq_int(joints@)[5] == joints@[5] as int);
        }
    }
    out
}

/// Convert kinematic joint angles in radians back to FANUC controller
/// degrees, including the J2/J3 interaction quirk.
pub fn rad_to_joints(rads: &[i64; 6]) -> (r: [i64; 6])
    requires
        forall|i: int| 0 <= i < 6 ==> -MAX_ANGLE_RAD <= #[trigger] rads@[i] <= MAX_ANGLE_RAD,
    ensures
        forall|i: int| 0 <= i < 6 ==> r@[i] == sp_rad_to_joints(seq_int(rads@))[i],
{
    let d0 = rad_to_deg(rads[0]);
    let d1 = rad_to_deg(rads[1]);
    let d2 = rad_to_deg(rads[2]);
    let d3 = rad_to_deg(rads[3]);
    let d4 = rad_to_deg(rads[4]);
    let d5 = rad_to_deg(rads[5]);
    let d2c = d2 - d1;
    let out = [d0, d1, d2c, d3, d4, d5];
    proof {
        assert(forall|i: int| 0 <= i < 6 ==> out@[i] == sp_rad_to_joints(seq_int(rads@))[i]) by {
            assert(out@[0] == d0 && out@[1] == d1 && out@[2] == d2c && out@[3] == d3 && out@[4]
                == d4 && out@[5] == d5);
            assert(seq_int(rads@)[0] == rads@[0] as int);
            assert(seq_int(rads@)[1] == rads@[1] as int);
            assert(seq_int(rads@)[2] == rads@[2] as int);
            assert(seq_int(rads@)[3] == rads@[3] as int);
            assert(seq_int(rads@)[4] == rads@[4] as int);
            assert(seq_int(rads@)[5] == rads@[5] as int);
        }
    }
    out
}

/// Floors compose almost additively: dividing a sum loses at most one
/// unit against dividing the parts.
proof fn lemma_floor_sum(x: int, y: int)
    ensures
        x / fxs() + y / fxs() <= (x + y) / fxs() <= x / fxs() + y / fxs() + 1,
{
    lemma_fundamental_div_mod(x, fxs());
    lemma_fundamental_div_mod(y, fxs());
    let q = x / fxs() + y / fxs();
    let r = x % fxs() + y % fxs();
    if r < fxs() {
        lemma_fundamental_div_mod_converse(x + y, fxs(), q, r);
    } else {
        lemma_fundamental_div_mod_converse(x + y, fxs(), q + 1, r - fxs());
    }
}

/// Joint-angle convention round trip: taking a controller joint vector
/// to kinematic form and back reproduces every component within 512
/// fixed-point units — under 2e-12 degrees, far inside a 1e-9 tolerance.
/// The J2/J3 coupling is exactly self-inverse; the only loss is the
/// rounding of the two unit conversions.
pub proof fn lemma_joint_convention_round_trip(j: Seq<i64>)
    requires
        j.len() == 6,
        forall|i: int| 0 <= i < 6 ==> -MAX_ANGLE_DEG <= #[trigger] j[i] <= MAX_ANGLE_DEG,
    ensures
        forall|i: int|
            0 <= i < 6 ==> -512 <= #[trigger] sp_rad_to_joints(sp_joints_to_rad(seq_int(j)))[i] - j[
                i
            ] <= 512,
{
    let ji = seq_int(j);
    let y = sp_joints_to_rad(ji);
    let z = sp_rad_to_joints(y);
    assert forall|i: int| 0 <= i < 6 implies -512 <= #[trigger] z[i] - j[i] <= 512 by {
        assert(ji[i] == j[i] as int);
        if i != 2 {
            assert(z[i] == sp_rad_to_deg(sp_deg_to_rad(ji[i])));
            lemma_deg_rad_round_trip(ji[i]);
        } else {
            let a = sp_deg_to_rad(ji[2]);
            let b = sp_deg_to_rad(ji[1]);
            assert(y[2] == a + b && y[1] == b);
            assert(z[2] == sp_rad_to_deg(a + b) - sp_rad_to_deg(b));
            lemma_floor_sum(a * (FX_RAD_TO_DEG as int), b * (FX_RAD_TO_DEG as int));
            assert((a + b) * (FX_RAD_TO_DEG as int) == a * (FX_RAD_TO_DEG as int) + b * (
            FX_RAD_TO_DEG as int)) by (nonlinear_arith);
            lemma_deg_rad_round_trip(ji[2]);
        }
    }
}

/// All six controller angles within the accepted degree range.
pub open spec fn sp_deg_ok(j: Seq<i64>) -> bool {
    forall|i: int| 0 <= i < j.len() ==> -MAX_ANGLE_DEG <= #[trigger] j[i] <= MAX_ANGLE_DEG
}

/// The kinematic radian carriers of a controller joint vector.
pub open spec fn sp_rad_carriers(j: Seq<i64>) -> Seq<i64> {
    Seq::new(6, |i: int| sp_joints_to_rad(seq_int(j))[i] as i64)
}

/// Range-check a controller joint vector and convert it to kinematic
/// radian carriers, ready for chain evaluation.
pub fn kinematic_angles(joints: &[i64; 6]) -> (r: Result<[i64; 6], crate::KinError>)
    ensures
        match r {
            Ok(a) => sp_deg_ok(joints@) && a@ == sp_rad_carriers(joints@)
                && crate::chain::angles_in_range(a@),
            Err(e) => e == crate::KinError::OutOfRange && !sp_deg_ok(joints@),
        },
{
    let al = MAX_ANGLE_DEG;
    if !(-al <= joints[0] && joints[0] <= al && -al <= joints[1] && joints[1] <= al && -al
        <= joints[2] && joints[2] <= al && -al <= joints[3] && joints[3] <= al && -al <= joints[4]
        && joints[4] <= al && -al <= joints[5] && joints[5] <= al) {
        return Err(crate::KinError::OutOfRange);
    }
    let rads = joints_to_rad(joints);
    proof {
        assert forall|i: int| 0 <= i < 6 implies rads@[i] == sp_rad_carriers(joints@)[i] by {
            assert(rads@[i] == sp_joints_to_rad(seq_int(joints@))[i]);
        }
        assert(rads@ =~= sp_rad_carriers(joints@));
    }
    Ok(rads)
}

} // verus!

//! The CRX series of collaborative robots.  These are non-spherical
//! wrist robots with three parallel axes; the whole series shares one
//! kinematic structure and differs only in its link lengths.
//!
//! The series has the linked J2/J3 quirk common to the FANUC robots, so
//! joint angles pass through `joints_to_rad` / `rad_to_joints` on their
//! way in and out of the kinematic model.
//!
//! Inverse kinematics is delegated to an external analytic solver that
//! takes a rotation matrix and a translation in the canonical joint-axis
//! frame.  The verified half of that exchange lives here: `ik_request`
//! validates and reframes the target and decides reachability, and
//! `ik_solutions` maps the solver's raw candidates back to controller
//! form, preserving each candidate's least-squares flag.

use crate::chain::{chain_wf, sp_flange, sp_frames, Chain, Joint, JointKind};
use crate::fanuc::{
    end_adjust, kinematic_angles, rad_to_joints, seq_int, sp_deg_ok, sp_end_adjust,
    sp_joints_to_rad, sp_rad_carriers, sp_rad_to_joints,
};
use crate::fx::{FX_ONE, MAX_ANGLE_RAD};
use crate::helpers::{mat_orthonormal, sp_orthonormal};
use crate::transform::{
    compose_fits, inverse_fits, lemma_principal_axis_unit, sp_compose, sp_identity, sp_inverse,
    transform_wf, FxMat3, FxVec3, Transform, TR_LIMIT,
};
use crate::KinError;
use vstd::prelude::*;

verus! {

/// A CRX-series robot: its chain for forward kinematics, and the link
/// geometry that parameterises the external analytic solver.
pub struct Crx {
    /// The kinematic chain, including the flange-convention adjustment.
    pub chain: Chain,
    /// The link offset vectors, one from each link origin to the next,
    /// in the canonical frame the analytic solver expects.
    pub p_vectors: [FxVec3; 7],
    /// The joint rotation axes in the same canonical frame.
    pub h_vectors: [FxVec3; 6],
    /// The sum of all link lengths, measured generously by the 1-norm:
    /// no reachable point has any coordinate beyond this.
    pub reach: i64,
}

/// The negated unit carrier.
pub open spec fn neg_one() -> i64 {
    (-(FX_ONE as int)) as i64
}

/// The rotation axis of CRX joint `k` in the canonical frame.
pub open spec fn sp_crx_axis(k: int) -> FxVec3 {
    if k == 0 {
        FxVec3 { x: 0, y: 0, z: FX_ONE }
    } else if k == 1 {
        FxVec3 { x: 0, y: FX_ONE, z: 0 }
    } else if k == 2 {
        FxVec3 { x: 0, y: neg_one(), z: 0 }
    } else if k == 3 {
        FxVec3 { x: neg_one(), y: 0, z: 0 }
    } else if k == 4 {
        FxVec3 { x: 0, y: neg_one(), z: 0 }
    } else {
        FxVec3 { x: neg_one(), y: 0, z: 0 }
    }
}

/// The fixed offset of CRX joint `k` from the previous joint's frame:
/// a pure translation taken from the robot's datasheet lengths.
pub open spec fn sp_crx_offset(k: int, z1: i64, x1: i64, x2: i64, y1: i64) -> Transform {
    Transform {
        rot: sp_identity().rot,
        t: if k == 2 {
            FxVec3 { x: 0, y: 0, z: z1 }
        } else if k == 4 {
            FxVec3 { x: x1, y: (-(y1 as int)) as i64, z: 0 }
        } else if k == 5 {
            FxVec3 { x: x2, y: 0, z: 0 }
        } else {
            FxVec3 { x: 0, y: 0, z: 0 }
        },
    }
}

/// The link offset vector of CRX joint `k` as handed to the solver:
/// the translation of the joint's offset, with a trailing zero column
/// for the flange.
pub open spec fn sp_crx_p(k: int, z1: i64, x1: i64, x2: i64, y1: i64) -> FxVec3 {
    if k < 6 {
        sp_crx_offset(k, z1, x1, x2, y1).t
    } else {
        FxVec3 { x: 0, y: 0, z: 0 }
    }
}

/// The chain of a CRX robot with the given link lengths — six rotational
/// joints about the canonical axes, with the flange adjustment at the
/// end — together with the solver parameterisation: the axis vectors and
/// link offset vectors carried in `h_vectors` and `p_vectors`.
pub open spec fn sp_crx_chain_ok(c: Crx, z1: i64, x1: i64, x2: i64, y1: i64) -> bool {
    &&& c.chain.joints@.len() == 6
    &&& forall|k: int|
        0 <= k < 6 ==> #[trigger] c.chain.joints@[k] == (Joint {
            kind: JointKind::Rotational { axis: sp_crx_axis(k) },
            offset: sp_crx_offset(k, z1, x1, x2, y1),
        })
    &&& c.chain.end == Some(sp_end_adjust())
    &&& forall|k: int| 0 <= k < 7 ==> #[trigger] c.p_vectors@[k] == sp_crx_p(k, z1, x1, x2, y1)
    &&& forall|k: int| 0 <= k < 6 ==> #[trigger] c.h_vectors@[k] == sp_crx_axis(k)
}

/// A well-formed CRX value: its chain is well formed and its reach is a
/// usable bound.
pub open spec fn crx_wf(c: Crx) -> bool {
    &&& chain_wf(c.chain)
    &&& 0 <= c.reach <= 4 * (TR_LIMIT as int)
    &&& forall|k: int| 0 <= k < 7 ==> crate::transform::vec_wf(#[trigger] c.p_vectors@[k])
}

impl Crx {
    /// Internal constructor for the CRX series.
    ///
    /// * `z1`: height from the J2 axis to the J3 axis.
    /// * `x1`: length from the J3 axis to the J5 axis.
    /// * `x2`: length from the J5 axis to the robot flange.
    /// * `y1`: offset from the J1 axis to the J2 axis.
    ///
    /// All lengths in fixed-point millimetres.
    fn new(z1: i64, x1: i64, x2: i64, y1: i64) -> (r: Crx)
        requires
            0 <= z1 <= TR_LIMIT,
            0 <= x1 <= TR_LIMIT,
            0 <= x2 <= TR_LIMIT,
            0 <= y1 <= TR_LIMIT,
        ensures
            crx_wf(r),
            sp_crx_chain_ok(r, z1, x1, x2, y1),
            r.reach == z1 + x1 + y1 + x2,
    {
        let zero = FxVec3 { x: 0, y: 0, z: 0 };
        let axis_z = FxVec3 { x: 0, y: 0, z: FX_ONE };
        let axis_y = FxVec3 { x: 0, y: FX_ONE, z: 0 };
        let axis_ny = FxVec3 { x: 0, y: -FX_ONE, z: 0 };
        let axis_nx = FxVec3 { x: -FX_ONE, y: 0, z: 0 };
        let ident = Transform::identity();
        let j0 = Joint { kind: JointKind::Rotational { axis: axis_z }, offset: ident };
        let j1 = Joint { kind: JointKind::Rotational { axis: axis_y }, offset: ident };
        let j2 = Joint {
            kind: JointKind::Rotational { axis: axis_ny },
            offset: Transform { rot: ident.rot, t: FxVec3 { x: 0, y: 0, z: z1 } },
        };
        let j3 = Joint { kind: JointKind::Rotational { axis: axis_nx }, offset: ident };
        let j4 = Joint {
            kind: JointKind::Rotational { axis: axis_ny },
            offset: Transform { rot: ident.rot, t: FxVec3 { x: x1, y: -y1, z: 0 } },
        };
        let j5 = Joint {
            kind: JointKind::Rotational { axis: axis_nx },
            offset: Transform { rot: ident.rot, t: FxVec3 { x: x2, y: 0, z: 0 } },
        };
        let mut joints: Vec<Joint> = Vec::new();
        joints.push(j0);
        joints.push(j1);
        joints.push(j2);
        joints.push(j3);
        joints.push(j4);
        joints.push(j5);
        let chain = Chain { joints, end: Some(end_adjust()) };
        proof {
            lemma_principal_axis_unit(axis_z);
            lemma_principal_axis_unit(axis_y);
            lemma_principal_axis_unit(axis_ny);
            lemma_principal_axis_unit(axis_nx);
            assert(chain.joints@[0] == j0 && chain.joints@[1] == j1 && chain.joints@[2] == j2
                && chain.joints@[3] == j3 && chain.joints@[4] == j4 && chain.joints@[5] == j5);
        }
        let p_vectors = [
            zero,
            zero,
            FxVec3 { x: 0, y: 0, z: z1 },
            zero,
            FxVec3 { x: x1, y: -y1, z: 0 },
            FxVec3 { x: x2, y: 0, z: 0 },
            zero,
        ];
        let h_vectors = [axis_z, axis_y, axis_ny, axis_nx, axis_ny, axis_nx];
        let reach = z1 + x1 + y1 + x2;
        let c = Crx { chain, p_vectors, h_vectors, reach };
        proof {
            assert forall|k: int| 0 <= k < 7 implies #[trigger] c.p_vectors@[k] == sp_crx_p(
                k,
                z1,
                x1,
                x2,
                y1,
            ) by {
                assert(c.p_vectors@[0] == sp_crx_p(0, z1, x1, x2, y1));
                assert(c.p_vectors@[1] == sp_crx_p(1, z1, x1, x2, y1));
                assert(c.p_vectors@[2] == sp_crx_p(2, z1, x1, x2, y1));
                assert(c.p_vectors@[3] == sp_crx_p(3, z1, x1, x2, y1));
                assert(c.p_vectors@[4] == sp_crx_p(4, z1, x1, x2, y1));
                assert(c.p_vectors@[5] == sp_crx_p(5, z1, x1, x2, y1));
                assert(c.p_vectors@[6] == sp_crx_p(6, z1, x1, x2, y1));
            }
            assert forall|k: int| 0 <= k < 6 implies #[trigger] c.h_vectors@[k] == sp_crx_axis(
                k,
            ) by {
                assert(c.h_vectors@[0] == sp_crx_axis(0));
                assert(c.h_vectors@[1] == sp_crx_axis(1));
                assert(c.h_vectors@[2] == sp_crx_axis(2));
                assert(c.h_vectors@[3] == sp_crx_axis(3));
                assert(c.h_vectors@[4] == sp_crx_axis(4));
                assert(c.h_vectors@[5] == sp_crx_axis(5));
            }
        }
        c
    }

    /// Creates a new CRX-5iA robot.
    pub fn new_5ia() -> (r: Crx)
        ensures
            crx_wf(r),
            sp_crx_chain_ok(r, (410 * FX_ONE) as i64, (430 * FX_ONE) as i64, (145 * FX_ONE) as i64, (130 * FX_ONE) as i64),
            r.reach == 1115 * (FX_ONE as int),
    {
        Self::new(410 * FX_ONE, 430 * FX_ONE, 145 * FX_ONE, 130 * FX_ONE)
    }

    /// Creates a new CRX-10iA robot.
    pub fn new_10ia() -> (r: Crx)
        ensures
            crx_wf(r),
            sp_crx_chain_ok(r, (540 * FX_ONE) as i64, (540 * FX_ONE) as i64, (160 * FX_ONE) as i64, (150 * FX_ONE) as i64),
            r.reach == 1390 * (FX_ONE as int),
    {
        Self::new(540 * FX_ONE, 540 * FX_ONE, 160 * FX_ONE, 150 * FX_ONE)
    }
}

/// The flange frame of a CRX robot at a controller joint vector, or
/// `None` when an angle is out of range or a carrier overflows.
pub open spec fn sp_crx_forward(c: Crx, j: Seq<i64>) -> Option<Transform> {
    if !sp_deg_ok(j) {
        None
    } else {
        sp_flange(c.chain, sp_rad_carriers(j))
    }
}

impl Crx {
    /// Forward kinematics from controller joint angles in degrees.  The
    /// output frame matches the FANUC controller in position and
    /// orientation: the flange-convention adjustment is already applied.
    pub fn forward(&self, joints: &[i64; 6]) -> (r: Result<Transform, KinError>)
        requires
            crx_wf(*self),
        ensures
            match r {
                Ok(t) => sp_crx_forward(*self, joints@) == Some(t) && transform_wf(t),
                Err(e) => e == KinError::OutOfRange && sp_crx_forward(*self, joints@) is None,
            },
    {
        let rads = match kinematic_angles(joints) {
            Ok(a) => a,
            Err(e) => {
                return Err(e);
            },
        };
        self.chain.forward(&rads)
    }

    /// Forward kinematics returning the frame at every joint.  The last
    /// frame is the flange frame, identical to `forward`; the earlier
    /// frames sit at the kinematic link origins.
    pub fn forward_with_links(&self, joints: &[i64; 6]) -> (r: Result<Vec<Transform>, KinError>)
        requires
            crx_wf(*self),
        ensures
            match r {
                Ok(v) => {
                    &&& sp_deg_ok(joints@)
                    &&& v@.len() == 6
                    &&& sp_frames(self.chain, sp_rad_carriers(joints@), 6) matches Some(fs) && (
                    forall|k: int| 0 <= k < 5 ==> v@[k] == fs[k])
                    &&& sp_crx_forward(*self, joints@) == Some(v@[5])
                },
                Err(e) => e == KinError::OutOfRange && sp_crx_forward(*self, joints@) is None,
            },
    {
        let rads = match kinematic_angles(joints) {
            Ok(a) => a,
            Err(e) => {
                return Err(e);
            },
        };
        self.chain.forward_with_links(&rads)
    }
}

/// An inverse-kinematics candidate mapped back to controller form.
#[derive(Clone, Copy, Debug, PartialEq, Eq)]
pub struct IkSolution {
    /// Joint angles in controller form: degrees, J3 relative to J2.
    pub joints: [i64; 6],
    /// Whether the solver marked this candidate as least-squares: a
    /// best-effort answer to a target it could not meet exactly.
    pub least_squares: bool,
}

/// The target position is farther out, in some coordinate, than the sum
/// of all link lengths: a sound certificate of unreachability.
pub open spec fn sp_beyond_reach(t: FxVec3, reach: int) -> bool {
    t.x > reach || t.x < -reach || t.y > reach || t.y < -reach || t.z > reach || t.z < -reach
}

/// The target reframed for the solver: the flange-convention adjustment
/// removed from its right side.
pub open spec fn sp_reframed(target: Transform) -> Option<Transform> {
    if compose_fits(target, sp_inverse(sp_end_adjust())) {
        Some(sp_compose(target, sp_inverse(sp_end_adjust())))
    } else {
        None
    }
}

/// All six radian carriers of a candidate within range.
pub open spec fn sp_cand_ok(q: Seq<i64>) -> bool {
    forall|k: int| 0 <= k < q.len() ==> -MAX_ANGLE_RAD <= #[trigger] q[k] <= MAX_ANGLE_RAD
}

impl Crx {
    /// Prepare an inverse-kinematics request.  A non-orthonormal target
    /// rotation is rejected before anything reaches the solver.  A
    /// target provably beyond the robot's reach yields `Ok(None)`: the
    /// candidate list is empty, which is an answer, not an error.
    /// Otherwise the result is the rotation and translation of the
    /// reframed target, the canonical request shape of the solver.
    pub fn ik_request(&self, target: &Transform) -> (r: Result<
        Option<(FxMat3, FxVec3)>,
        KinError,
    >)
        requires
            crx_wf(*self),
            transform_wf(*target),
        ensures
            match r {
                Ok(opt) => {
                    &&& sp_orthonormal(target.rot)
                    &&& sp_reframed(*target) matches Some(re) && match opt {
                        None => sp_beyond_reach(re.t, self.reach as int),
                        Some(q) => !sp_beyond_reach(re.t, self.reach as int) && q.0 == re.rot
                            && q.1 == re.t,
                    }
                },
                Err(e) => (e == KinError::NotOrthonormal && !sp_orthonormal(target.rot)) || (e
                    == KinError::OutOfRange && sp_orthonormal(target.rot) && sp_reframed(
                    *target,
                ) is None),
            },
    {
        if !mat_orthonormal(&target.rot) {
            return Err(KinError::NotOrthonormal);
        }
        let adjust = end_adjust();
        let inv = match adjust.inverse() {
            Ok(t) => t,
            Err(_) => {
                proof {
                    lemma_end_adjust_inverse_fits();
                }
                return Err(KinError::OutOfRange);
            },
        };
        let re = match target.compose(&inv) {
            Ok(t) => t,
            Err(_) => {
                return Err(KinError::OutOfRange);
            },
        };
        let reach = self.reach;
        if re.t.x > reach || re.t.x < -reach || re.t.y > reach || re.t.y < -reach || re.t.z > reach
            || re.t.z < -reach {
            return Ok(None);
        }
        Ok(Some((re.rot, re.t)))
    }

    /// Map the solver's raw candidates back to controller-displayed
    /// joint values, in the order received, preserving each candidate's
    /// least-squares flag unchanged.
    pub fn ik_solutions(candidates: &Vec<([i64; 6], bool)>) -> (r: Result<Vec<IkSolution>, KinError>)
        ensures
            match r {
                Ok(v) => {
                    &&& v@.len() == candidates@.len()
                    &&& forall|i: int|
                        0 <= i < v@.len() ==> (#[trigger] v@[i]).least_squares == candidates@[i].1
                    &&& forall|i: int|
                        0 <= i < v@.len() ==> (forall|k: int|
                            0 <= k < 6 ==> (#[trigger] v@[i]).joints@[k] == sp_rad_to_joints(
                                seq_int(candidates@[i].0@),
                            )[k])
                    &&& forall|i: int|
                        0 <= i < candidates@.len() ==> sp_cand_ok(#[trigger] candidates@[i].0@)
                },
                Err(e) => e == KinError::OutOfRange && exists|i: int|
                    0 <= i < candidates@.len() && !sp_cand_ok(#[trigger] candidates@[i].0@),
            },
    {
        let mut out: Vec<IkSolution> = Vec::new();
        let mut i: usize = 0;
        let n = candidates.len();
        while i < n
            invariant
                n == candidates@.len(),
                0 <= i <= n,
                out@.len() == i,
                forall|k: int|
                    0 <= k < i ==> (#[trigger] out@[k]).least_squares == candidates@[k].1,
                forall|k: int|
                    0 <= k < i ==> (forall|m: int|
                        0 <= m < 6 ==> (#[trigger] out@[k]).joints@[m] == sp_rad_to_joints(
                            seq_int(candidates@[k].0@),
                        )[m]),
                forall|k: int| 0 <= k < i ==> sp_cand_ok(#[trigger] candidates@[k].0@),
            decreases n - i,
        {
            let (q, is_ls) = &candidates[i];
            let rl = MAX_ANGLE_RAD;
            if !(-rl <= q[0] && q[0] <= rl && -rl <= q[1] && q[1] <= rl && -rl <= q[2] && q[2] <= rl
                && -rl <= q[3] && q[3] <= rl && -rl <= q[4] && q[4] <= rl && -rl <= q[5] && q[5]
                <= rl) {
                proof {
                    assert(!sp_cand_ok(candidates@[i as int].0@));
                }
                return Err(KinError::OutOfRange);
            }
            let joints = rad_to_joints(q);
            out.push(IkSolution { joints, least_squares: *is_ls });
            i = i + 1;
        }
        Ok(out)
    }
}

/// The flange-convention adjustment is a pure rotation, so its inverse
/// never leaves the representable range.
proof fn lemma_end_adjust_inverse_fits()
    ensures
        inverse_fits(sp_end_adjust()),
{
    vstd::arithmetic::div_mod::lemma_div_of0(crate::fx::fxs());
}

} // verus!

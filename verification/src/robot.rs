//! The FANUC LR Mate 200iD, modelled as a plain six-joint chain.
//!
//! The type keeps the last joint vector it was given, so reading poses
//! back mirrors the controller's set-then-read workflow; evaluation
//! itself is stateless and never clamps angles to mechanical limits.

use crate::chain::{chain_wf, sp_flange, sp_frames, Chain, Joint, JointKind};
use crate::fanuc::{kinematic_angles, sp_deg_ok, sp_rad_carriers};
use crate::fx::{FX_ONE, MAX_ANGLE_RAD};
use crate::poses::{sp_from_iso, sp_wpr_rot, sp_wpr_trig_ok, wpr_rot_from_rads, XyzWpr};
use crate::transform::{
    lemma_principal_axis_unit, mat_wf, sp_identity, transform_wf, FxMat3, FxVec3, Transform,
};
use crate::KinError;
use vstd::prelude::*;

verus! {

/// The fixed basis rotation of the fifth joint: the flange convention
/// of this robot family, whose matrix is exact in fixed point.  It is
/// the rotation the controller displays as W/P/R angles (180, -90, 0).
pub open spec fn sp_lr_basis() -> FxMat3 {
    FxMat3 {
        m00: 0,
        m01: 0,
        m02: FX_ONE,
        m10: 0,
        m11: (-(FX_ONE as int)) as i64,
        m12: 0,
        m20: FX_ONE,
        m21: 0,
        m22: 0,
    }
}

/// The joints of the LR Mate 200iD chain: axes and datasheet offsets.
pub open spec fn sp_lr_joint(k: int) -> Joint {
    if k == 0 {
        Joint {
            kind: JointKind::Rotational { axis: FxVec3 { x: 0, y: 0, z: FX_ONE } },
            offset: sp_identity(),
        }
    } else if k == 1 {
        Joint {
            kind: JointKind::Rotational { axis: FxVec3 { x: 0, y: FX_ONE, z: 0 } },
            offset: Transform {
                rot: sp_identity().rot,
                t: FxVec3 { x: (50 * FX_ONE) as i64, y: 0, z: 0 },
            },
        }
    } else if k == 2 {
        Joint {
            kind: JointKind::Rotational {
                axis: FxVec3 { x: 0, y: (-(FX_ONE as int)) as i64, z: 0 },
            },
            offset: Transform {
                rot: sp_identity().rot,
                t: FxVec3 { x: 0, y: 0, z: (330 * FX_ONE) as i64 },
            },
        }
    } else if k == 3 {
        Joint {
            kind: JointKind::Rotational {
                axis: FxVec3 { x: (-(FX_ONE as int)) as i64, y: 0, z: 0 },
            },
            offset: Transform {
                rot: sp_identity().rot,
                t: FxVec3 { x: 0, y: 0, z: (35 * FX_ONE) as i64 },
            },
        }
    } else if k == 4 {
        Joint {
            kind: JointKind::Rotational { axis: FxVec3 { x: 0, y: FX_ONE, z: 0 } },
            offset: Transform {
                rot: sp_lr_basis(),
                t: FxVec3 { x: (335 * FX_ONE) as i64, y: 0, z: 0 },
            },
        }
    } else {
        Joint {
            kind: JointKind::Rotational { axis: FxVec3 { x: 0, y: 0, z: FX_ONE } },
            offset: Transform {
                rot: sp_identity().rot,
                t: FxVec3 { x: 0, y: 0, z: (80 * FX_ONE) as i64 },
            },
        }
    }
}

/// The chain is exactly the LR Mate 200iD description.
pub open spec fn sp_lr_chain_ok(c: Chain) -> bool {
    &&& c.joints@.len() == 6
    &&& forall|k: int| 0 <= k < 6 ==> #[trigger] c.joints@[k] == sp_lr_joint(k)
    &&& c.end is None
}

/// A FANUC LR Mate 200iD: its chain, and the controller joint vector it
/// was last given.
pub struct FanucLrMate200id {
    pub chain: Chain,
    pub joints: [i64; 6],
}

/// A well-formed robot value.
pub open spec fn lr_wf(r: FanucLrMate200id) -> bool {
    chain_wf(r.chain) && sp_lr_chain_ok(r.chain)
}

/// Build the LR Mate 200iD chain.
fn fanuc_lr_mate_200id() -> (r: Chain)
    ensures
        sp_lr_chain_ok(r),
        chain_wf(r),
{
    let ident = Transform::identity();
    let axis_z = FxVec3 { x: 0, y: 0, z: FX_ONE };
    let axis_y = FxVec3 { x: 0, y: FX_ONE, z: 0 };
    let axis_ny = FxVec3 { x: 0, y: -FX_ONE, z: 0 };
    let axis_nx = FxVec3 { x: -FX_ONE, y: 0, z: 0 };
    let basis = FxMat3 {
        m00: 0,
        m01: 0,
        m02: FX_ONE,
        m10: 0,
        m11: -FX_ONE,
        m12: 0,
        m20: FX_ONE,
        m21: 0,
        m22: 0,
    };
    let j0 = Joint { kind: JointKind::Rotational { axis: axis_z }, offset: ident };
    let j1 = Joint {
        kind: JointKind::Rotational { axis: axis_y },
        offset: Transform { rot: ident.rot, t: FxVec3 { x: 50 * FX_ONE, y: 0, z: 0 } },
    };
    let j2 = Joint {
        kind: JointKind::Rotational { axis: axis_ny },
        offset: Transform { rot: ident.rot, t: FxVec3 { x: 0, y: 0, z: 330 * FX_ONE } },
    };
    let j3 = Joint {
        kind: JointKind::Rotational { axis: axis_nx },
        offset: Transform { rot: ident.rot, t: FxVec3 { x: 0, y: 0, z: 35 * FX_ONE } },
    };
    let j4 = Joint {
        kind: JointKind::Rotational { axis: axis_y },
        offset: Transform { rot: basis, t: FxVec3 { x: 335 * FX_ONE, y: 0, z: 0 } },
    };
    let j5 = Joint {
        kind: JointKind::Rotational { axis: axis_z },
        offset: Transform { rot: ident.rot, t: FxVec3 { x: 0, y: 0, z: 80 * FX_ONE } },
    };
    let mut joints: Vec<Joint> = Vec::new();
    joints.push(j0);
    joints.push(j1);
    joints.push(j2);
    joints.push(j3);
    joints.push(j4);
    joints.push(j5);
    let chain = Chain { joints, end: None };
    proof {
        lemma_principal_axis_unit(axis_z);
        lemma_principal_axis_unit(axis_y);
        lemma_principal_axis_unit(axis_ny);
        lemma_principal_axis_unit(axis_nx);
        assert(chain.joints@[0] == j0 && chain.joints@[1] == j1 && chain.joints@[2] == j2
            && chain.joints@[3] == j3 && chain.joints@[4] == j4 && chain.joints@[5] == j5);
        assert forall|k: int| 0 <= k < 6 implies #[trigger] chain.joints@[k] == sp_lr_joint(k) by {
            assert(chain.joints@[0] == sp_lr_joint(0));
            assert(chain.joints@[1] == sp_lr_joint(1));
            assert(chain.joints@[2] == sp_lr_joint(2));
            assert(chain.joints@[3] == sp_lr_joint(3));
            assert(chain.joints@[4] == sp_lr_joint(4));
            assert(chain.joints@[5] == sp_lr_joint(5));
        }
    }
    chain
}

/// The controller pose of every frame of the robot at its stored joint
/// vector, or `None` when an angle is out of range or a carrier
/// overflows.
pub open spec fn sp_lr_end_pose(r: FanucLrMate200id) -> Option<XyzWpr> {
    if !sp_deg_ok(r.joints@) {
        None
    } else {
        match sp_flange(r.chain, sp_rad_carriers(r.joints@)) {
            None => None,
            Some(t) => Some(sp_from_iso(t)),
        }
    }
}

impl FanucLrMate200id {
    /// A robot at the all-zero joint vector.
    pub fn new() -> (r: FanucLrMate200id)
        ensures
            lr_wf(r),
            r.joints@ == seq![0i64, 0i64, 0i64, 0i64, 0i64, 0i64],
    {
        let chain = fanuc_lr_mate_200id();
        let joints = [0i64; 6];
        proof {
            assert(joints@ =~= seq![0i64, 0i64, 0i64, 0i64, 0i64, 0i64]);
        }
        FanucLrMate200id { chain, joints }
    }

    /// Store a controller joint vector, in degrees.  Angles are not
    /// clamped to mechanical limits; evaluation takes them as given.
    pub fn set_joints(&mut self, joints: &[i64; 6])
        ensures
            final (self).joints@ == joints@,
            final (self).chain == old(self).chain,
    {
        self.joints = *joints;
    }

    /// The controller pose of every joint frame at the stored joint
    /// vector: six poses, the last being the flange pose.
    pub fn poses(&self) -> (r: Result<Vec<XyzWpr>, KinError>)
        requires
            lr_wf(*self),
        ensures
            match r {
                Ok(v) => {
                    &&& sp_deg_ok(self.joints@)
                    &&& v@.len() == 6
                    &&& sp_frames(self.chain, sp_rad_carriers(self.joints@), 6) matches Some(fs)
                        && (forall|k: int| 0 <= k < 5 ==> v@[k] == sp_from_iso(fs[k]))
                    &&& sp_lr_end_pose(*self) == Some(v@[5])
                },
                Err(e) => e == KinError::OutOfRange && sp_lr_end_pose(*self) is None,
            },
    {
        let rads = match kinematic_angles(&self.joints) {
            Ok(a) => a,
            Err(e) => {
                return Err(e);
            },
        };
        let frames = match self.chain.forward_with_links(&rads) {
            Ok(v) => v,
            Err(e) => {
                return Err(e);
            },
        };
        let mut out: Vec<XyzWpr> = Vec::new();
        let mut i: usize = 0;
        while i < 6
            invariant
                frames@.len() == 6,
                forall|k: int| 0 <= k < 6 ==> transform_wf(#[trigger] frames@[k]),
                0 <= i <= 6,
                out@.len() == i,
                forall|k: int| 0 <= k < i ==> #[trigger] out@[k] == sp_from_iso(frames@[k]),
            decreases 6 - i,
        {
            out.push(XyzWpr::from_isometry(&frames[i]));
            i = i + 1;
        }
        Ok(out)
    }

    /// The controller pose of the flange at the stored joint vector.
    pub fn end_pose(&self) -> (r: Result<XyzWpr, KinError>)
        requires
            lr_wf(*self),
        ensures
            match r {
                Ok(p) => sp_lr_end_pose(*self) == Some(p),
                Err(e) => e == KinError::OutOfRange && sp_lr_end_pose(*self) is None,
            },
    {
        let rads = match kinematic_angles(&self.joints) {
            Ok(a) => a,
            Err(e) => {
                return Err(e);
            },
        };
        let flange = match self.chain.forward(&rads) {
            Ok(t) => t,
            Err(e) => {
                return Err(e);
            },
        };
        Ok(XyzWpr::from_isometry(&flange))
    }
}

/// The LR Mate 200iD chain with the fifth joint's basis built from the
/// given roll, pitch and yaw angles in fixed-point radians, the sixth
/// joint turned about X and offset along X, as an alternative
/// parameterisation of the same robot.
pub fn fanuc_lr_mate_200id2(a: i64, b: i64, c: i64) -> (r: Result<Chain, KinError>)
    ensures
        match r {
            Ok(ch) => {
                &&& -MAX_ANGLE_RAD <= a <= MAX_ANGLE_RAD
                &&& -MAX_ANGLE_RAD <= b <= MAX_ANGLE_RAD
                &&& -MAX_ANGLE_RAD <= c <= MAX_ANGLE_RAD
                &&& sp_wpr_trig_ok(a as int, b as int, c as int)
                &&& mat_wf(sp_wpr_rot(a as int, b as int, c as int))
                &&& chain_wf(ch)
                &&& ch.joints@.len() == 6
                &&& ch.end is None
                &&& ch.joints@[4] == (Joint {
                    kind: JointKind::Rotational {
                        axis: FxVec3 { x: 0, y: (-(FX_ONE as int)) as i64, z: 0 },
                    },
                    offset: Transform {
                        rot: sp_wpr_rot(a as int, b as int, c as int),
                        t: FxVec3 { x: (335 * FX_ONE) as i64, y: 0, z: 0 },
                    },
                })
                &&& ch.joints@[0] == sp_lr_joint(0)
                &&& ch.joints@[1] == sp_lr_joint(1)
                &&& ch.joints@[2] == sp_lr_joint(2)
                &&& ch.joints@[3] == (Joint {
                    kind: JointKind::Rotational {
                        axis: FxVec3 { x: (-(FX_ONE as int)) as i64, y: 0, z: 0 },
                    },
                    offset: Transform {
                        rot: sp_identity().rot,
                        t: FxVec3 { x: 0, y: 0, z: (35 * FX_ONE) as i64 },
                    },
                })
                &&& ch.joints@[5] == (Joint {
                    kind: JointKind::Rotational { axis: FxVec3 { x: FX_ONE, y: 0, z: 0 } },
                    offset: Transform {
                        rot: sp_identity().rot,
                        t: FxVec3 { x: (80 * FX_ONE) as i64, y: 0, z: 0 },
                    },
                })
            },
            Err(e) => e == KinError::OutOfRange && !(-MAX_ANGLE_RAD <= a <= MAX_ANGLE_RAD
                && -MAX_ANGLE_RAD <= b <= MAX_ANGLE_RAD && -MAX_ANGLE_RAD <= c <= MAX_ANGLE_RAD
                && sp_wpr_trig_ok(a as int, b as int, c as int) && mat_wf(
                sp_wpr_rot(a as int, b as int, c as int),
            )),
        },
{
    let rl = MAX_ANGLE_RAD;
    if !(-rl <= a && a <= rl && -rl <= b && b <= rl && -rl <= c && c <= rl) {
        return Err(KinError::OutOfRange);
    }
    let basis = match wpr_rot_from_rads(a, b, c) {
        Ok(m) => m,
        Err(e) => {
            return Err(e);
        },
    };
    let lim = crate::transform::ROT_LIMIT;
    if !(-lim <= basis.m00 && basis.m00 <= lim && -lim <= basis.m01 && basis.m01 <= lim && -lim
        <= basis.m02 && basis.m02 <= lim && -lim <= basis.m10 && basis.m10 <= lim && -lim
        <= basis.m11 && basis.m11 <= lim && -lim <= basis.m12 && basis.m12 <= lim && -lim
        <= basis.m20 && basis.m20 <= lim && -lim <= basis.m21 && basis.m21 <= lim && -lim
        <= basis.m22 && basis.m22 <= lim) {
        return Err(KinError::OutOfRange);
    }
    let ident = Transform::identity();
    let axis_z = FxVec3 { x: 0, y: 0, z: FX_ONE };
    let axis_y = FxVec3 { x: 0, y: FX_ONE, z: 0 };
    let axis_ny = FxVec3 { x: 0, y: -FX_ONE, z: 0 };
    let axis_nx = FxVec3 { x: -FX_ONE, y: 0, z: 0 };
    let axis_x = FxVec3 { x: FX_ONE, y: 0, z: 0 };
    let j0 = Joint { kind: JointKind::Rotational { axis: axis_z }, offset: ident };
    let j1 = Joint {
        kind: JointKind::Rotational { axis: axis_y },
        offset: Transform { rot: ident.rot, t: FxVec3 { x: 50 * FX_ONE, y: 0, z: 0 } },
    };
    let j2 = Joint {
        kind: JointKind::Rotational { axis: axis_ny },
        offset: Transform { rot: ident.rot, t: FxVec3 { x: 0, y: 0, z: 330 * FX_ONE } },
    };
    let j3 = Joint {
        kind: JointKind::Rotational { axis: axis_nx },
        offset: Transform { rot: ident.rot, t: FxVec3 { x: 0, y: 0, z: 35 * FX_ONE } },
    };
    let j4 = Joint {
        kind: JointKind::Rotational { axis: axis_ny },
        offset: Transform { rot: basis, t: FxVec3 { x: 335 * FX_ONE, y: 0, z: 0 } },
    };
    let j5 = Joint {
        kind: JointKind::Rotational { axis: axis_x },
        offset: Transform { rot: ident.rot, t: FxVec3 { x: 80 * FX_ONE, y: 0, z: 0 } },
    };
    let mut joints: Vec<Joint> = Vec::new();
    joints.push(j0);
    joints.push(j1);
    joints.push(j2);
    joints.push(j3);
    joints.push(j4);
    joints.push(j5);
    let chain = Chain { joints, end: None };
    proof {
        lemma_principal_axis_unit(axis_z);
        lemma_principal_axis_unit(axis_y);
        lemma_principal_axis_unit(axis_ny);
        lemma_principal_axis_unit(axis_nx);
        lemma_principal_axis_unit(axis_x);
        assert(chain.joints@[0] == j0 && chain.joints@[1] == j1 && chain.joints@[2] == j2
            && chain.joints@[3] == j3 && chain.joints@[4] == j4 && chain.joints@[5] == j5);
    }
    Ok(chain)
}

} // verus!

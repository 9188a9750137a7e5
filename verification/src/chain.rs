//! Serial kinematic chains of six joints, and their forward kinematics.
//!
//! A chain is an immutable description: per joint, a fixed rigid offset
//! from the previous joint's frame and a rotation axis (or a fixed joint
//! that adds no motion).  Evaluation is stateless: every call takes the
//! joint-angle vector as an argument, so the same chain value may be read
//! from any number of threads at once.
//!
//! Angles are *kinematic*: radians, already decoupled.  Angles are not
//! clamped to mechanical limits; callers wanting limits apply them before
//! evaluating.

use crate::fx::{FX_ONE, MAX_ANGLE_RAD};
use crate::transform::{
    axis_is_unit, axis_unit_ok, compose_fits, rodrigues_ok, sp_compose, sp_identity, sp_rodrigues,
    sp_rot_entry, sp_tr_entry, transform_in_range, transform_wf, FxVec3, Transform,
};
use crate::KinError;
use vstd::prelude::*;

verus! {

/// What a joint does: rotate about a fixed unit axis, or hold rigid.
#[derive(Clone, Copy, Debug, PartialEq, Eq, Structural)]
pub enum JointKind {
    /// A rotational joint about the given unit axis.
    Rotational { axis: FxVec3 },
    /// A rigid connection: the joint angle is ignored.
    Fixed,
}

/// One joint: its fixed offset from the previous frame, then its motion.
#[derive(Clone, Copy, Debug, PartialEq, Eq, Structural)]
pub struct Joint {
    pub kind: JointKind,
    pub offset: Transform,
}

/// An ordered chain of exactly six joints, with an optional fixed
/// end-effector adjustment applied after the last joint.
#[derive(Debug)]
pub struct Chain {
    pub joints: Vec<Joint>,
    pub end: Option<Transform>,
}

/// A joint is well formed when its offset is in range and its axis, if
/// rotational, is a unit vector.
pub open spec fn joint_wf(j: Joint) -> bool {
    &&& transform_wf(j.offset)
    &&& match j.kind {
        JointKind::Rotational { axis } => axis_unit_ok(axis),
        JointKind::Fixed => true,
    }
}

/// A chain is well formed when it has exactly six well-formed joints and
/// an in-range end adjustment, if one is present.
pub open spec fn chain_wf(c: Chain) -> bool {
    &&& c.joints@.len() == 6
    &&& forall|i: int| 0 <= i < 6 ==> joint_wf(#[trigger] c.joints@[i])
    &&& match c.end {
        Some(e) => transform_wf(e),
        None => true,
    }
}

/// All six angles within the accepted radian range.
pub open spec fn angles_in_range(a: Seq<i64>) -> bool {
    forall|i: int| 0 <= i < a.len() ==> -MAX_ANGLE_RAD <= #[trigger] a[i] <= MAX_ANGLE_RAD
}

/// The local frame a joint contributes: its offset composed with its own
/// rotation.  `None` when a carrier would leave the representable range.
pub open spec fn sp_joint_local(j: Joint, angle: int) -> Option<Transform> {
    match j.kind {
        JointKind::Rotational { axis } => {
            if !rodrigues_ok(axis, angle) {
                None
            } else {
                let rt = Transform {
                    rot: sp_rodrigues(axis, angle),
                    t: FxVec3 { x: 0, y: 0, z: 0 },
                };
                if compose_fits(j.offset, rt) {
                    Some(sp_compose(j.offset, rt))
                } else {
                    None
                }
            }
        },
        JointKind::Fixed => Some(j.offset),
    }
}

/// The frames at the first `n` joints, in chain order: frame k is the
/// running composition of the local frames of joints 0 through k.
pub open spec fn sp_frames(c: Chain, a: Seq<i64>, n: int) -> Option<Seq<Transform>>
    decreases n,
{
    if n <= 0 {
        Some(Seq::empty())
    } else {
        match sp_frames(c, a, n - 1) {
            None => None,
            Some(fs) => {
                let prev = if n == 1 {
                    sp_identity()
                } else {
                    fs[n - 2]
                };
                match sp_joint_local(c.joints@[n - 1], a[n - 1] as int) {
                    None => None,
                    Some(loc) => {
                        if compose_fits(prev, loc) {
                            Some(fs.push(sp_compose(prev, loc)))
                        } else {
                            None
                        }
                    },
                }
            },
        }
    }
}

/// The flange frame: the frame after the sixth joint, with the chain's
/// end adjustment applied when one is present.
pub open spec fn sp_flange(c: Chain, a: Seq<i64>) -> Option<Transform> {
    match sp_frames(c, a, 6) {
        None => None,
        Some(fs) => match c.end {
            None => Some(fs[5]),
            Some(e) => {
                if compose_fits(fs[5], e) {
                    Some(sp_compose(fs[5], e))
                } else {
                    None
                }
            },
        },
    }
}

/// Frame sequences have one frame per evaluated joint.
pub proof fn lemma_frames_len(c: Chain, a: Seq<i64>, n: int)
    requires
        sp_frames(c, a, n) is Some,
    ensures
        sp_frames(c, a, n)->Some_0.len() == if n <= 0 {
            0int
        } else {
            n
        },
    decreases n,
{
    if n > 0 {
        lemma_frames_len(c, a, n - 1);
    }
}

/// Once the running evaluation leaves the representable range it stays
/// out: a `None` prefix makes every longer prefix `None`.
pub proof fn lemma_frames_none_propagates(c: Chain, a: Seq<i64>, n: int, m: int)
    requires
        0 <= n <= m,
        sp_frames(c, a, n) is None,
    ensures
        sp_frames(c, a, m) is None,
    decreases m,
{
    if m > n {
        lemma_frames_none_propagates(c, a, n, m - 1);
    }
}

/// Chain evaluation is a mathematical function of the chain and the
/// angle vector: the same chain and the same angles give the same frames
/// and the same flange, bit for bit.  There is no hidden state.
pub proof fn lemma_forward_deterministic(c: Chain, a1: Seq<i64>, a2: Seq<i64>)
    requires
        a1 == a2,
    ensures
        sp_frames(c, a1, 6) == sp_frames(c, a2, 6),
        sp_flange(c, a1) == sp_flange(c, a2),
{
}

/// The local frame of a first joint that rotates about the exact base Z
/// axis with an identity offset: its bottom rotation row is exactly
/// (0, 0, one) and its translation is zero, whatever the angle.
proof fn lemma_z_rot_local(j: Joint, angle: int)
    requires
        j.kind == (JointKind::Rotational { axis: FxVec3 { x: 0, y: 0, z: FX_ONE } }),
        j.offset == sp_identity(),
        sp_joint_local(j, angle) is Some,
    ensures
        sp_joint_local(j, angle)->Some_0.rot.m20 == 0,
        sp_joint_local(j, angle)->Some_0.rot.m21 == 0,
        sp_joint_local(j, angle)->Some_0.rot.m22 == FX_ONE,
        sp_joint_local(j, angle)->Some_0.t == (FxVec3 { x: 0, y: 0, z: 0 }),
{
    let axis = FxVec3 { x: 0, y: 0, z: FX_ONE };
    let rt = Transform { rot: sp_rodrigues(axis, angle), t: FxVec3 { x: 0, y: 0, z: 0 } };
    let s = crate::fx::spec_sin(angle);
    let co = crate::fx::spec_cos(angle);
    let oc = FX_ONE as int - co;
    vstd::arithmetic::div_mod::lemma_div_of0(crate::fx::fxs());
    assert((FX_ONE as int) * (FX_ONE as int) == crate::fx::fxs() * (FX_ONE as int)
        && oc * (FX_ONE as int) == crate::fx::fxs() * oc) by (nonlinear_arith);
    vstd::arithmetic::div_mod::lemma_div_multiples_vanish(FX_ONE as int, crate::fx::fxs());
    vstd::arithmetic::div_mod::lemma_div_multiples_vanish(oc, crate::fx::fxs());
    assert(rt.rot.m20 == 0 && rt.rot.m21 == 0 && rt.rot.m22 == FX_ONE);
    assert(transform_wf(rt)) by {
        assert(compose_fits(j.offset, rt) && sp_joint_local(j, angle)->Some_0 == sp_compose(
            j.offset,
            rt,
        ));
        assert(crate::transform::mat_wf(rt.rot));
    }
    crate::transform::lemma_identity_left(rt);
}

/// Turning only the first joint of a chain whose first joint rotates
/// about the exact base Z axis never changes the Z coordinate of any
/// later frame: the bottom rotation row and the Z translation of every
/// running frame are independent of the first angle.
proof fn lemma_frames_z_agree(c: Chain, a1: Seq<i64>, a2: Seq<i64>, n: int)
    requires
        chain_wf(c),
        c.joints@[0] == (Joint {
            kind: JointKind::Rotational { axis: FxVec3 { x: 0, y: 0, z: FX_ONE } },
            offset: sp_identity(),
        }),
        a1.len() == 6,
        a2.len() == 6,
        forall|i: int| 1 <= i < 6 ==> a1[i] == a2[i],
        1 <= n <= 6,
        sp_frames(c, a1, n) is Some,
        sp_frames(c, a2, n) is Some,
    ensures
        sp_frames(c, a1, n)->Some_0[n - 1].rot.m20 == sp_frames(c, a2, n)->Some_0[n - 1].rot.m20,
        sp_frames(c, a1, n)->Some_0[n - 1].rot.m21 == sp_frames(c, a2, n)->Some_0[n - 1].rot.m21,
        sp_frames(c, a1, n)->Some_0[n - 1].rot.m22 == sp_frames(c, a2, n)->Some_0[n - 1].rot.m22,
        sp_frames(c, a1, n)->Some_0[n - 1].t.z == sp_frames(c, a2, n)->Some_0[n - 1].t.z,
    decreases n,
{
    lemma_frames_len(c, a1, n);
    lemma_frames_len(c, a2, n);
    if n == 1 {
        lemma_z_rot_local(c.joints@[0], a1[0] as int);
        lemma_z_rot_local(c.joints@[0], a2[0] as int);
        let loc1 = sp_joint_local(c.joints@[0], a1[0] as int)->Some_0;
        let loc2 = sp_joint_local(c.joints@[0], a2[0] as int)->Some_0;
        let f1 = sp_frames(c, a1, 1)->Some_0[0];
        let f2 = sp_frames(c, a2, 1)->Some_0[0];
        assert(f1 == sp_compose(sp_identity(), loc1));
        assert(f2 == sp_compose(sp_identity(), loc2));
        assert(f1.rot.m20 == sp_rot_entry(sp_identity(), loc1, 2, 0) as i64);
        assert(f1.rot.m21 == sp_rot_entry(sp_identity(), loc1, 2, 1) as i64);
        assert(f1.rot.m22 == sp_rot_entry(sp_identity(), loc1, 2, 2) as i64);
        assert(f1.t.z == sp_tr_entry(sp_identity(), loc1, 2) as i64);
        lemma_bottom_row_through_identity(loc1);
        lemma_bottom_row_through_identity(loc2);
    } else {
        lemma_frames_len(c, a1, n - 1);
        lemma_frames_len(c, a2, n - 1);
        lemma_frames_z_agree(c, a1, a2, n - 1);
        let p1 = sp_frames(c, a1, n - 1)->Some_0[n - 2];
        let p2 = sp_frames(c, a2, n - 1)->Some_0[n - 2];
        let loc = sp_joint_local(c.joints@[n - 1], a1[n - 1] as int)->Some_0;
        assert(a1[n - 1] == a2[n - 1]);
        let f1 = sp_frames(c, a1, n)->Some_0[n - 1];
        let f2 = sp_frames(c, a2, n)->Some_0[n - 1];
        assert(f1 == sp_compose(p1, loc));
        assert(f2 == sp_compose(p2, loc));
        lemma_bottom_row_of_compose(p1, p2, loc);
    }
}

/// Composing with the identity on the left keeps the bottom row and the
/// Z translation of the right factor.
proof fn lemma_bottom_row_through_identity(t: Transform)
    ensures
        sp_rot_entry(sp_identity(), t, 2, 0) == t.rot.m20 as int,
        sp_rot_entry(sp_identity(), t, 2, 1) == t.rot.m21 as int,
        sp_rot_entry(sp_identity(), t, 2, 2) == t.rot.m22 as int,
        sp_tr_entry(sp_identity(), t, 2) == t.t.z as int,
{
    assert((FX_ONE as int) * (t.rot.m20 as int) == crate::fx::fxs() * (t.rot.m20 as int));
    vstd::arithmetic::div_mod::lemma_div_multiples_vanish(t.rot.m20 as int, crate::fx::fxs());
    vstd::arithmetic::div_mod::lemma_div_multiples_vanish(t.rot.m21 as int, crate::fx::fxs());
    vstd::arithmetic::div_mod::lemma_div_multiples_vanish(t.rot.m22 as int, crate::fx::fxs());
    vstd::arithmetic::div_mod::lemma_div_multiples_vanish(t.t.z as int, crate::fx::fxs());
}

/// Two left factors that agree on their bottom row and Z translation
/// yield compositions that also agree there, whatever the right factor.
proof fn lemma_bottom_row_of_compose(p1: Transform, p2: Transform, loc: Transform)
    requires
        p1.rot.m20 == p2.rot.m20,
        p1.rot.m21 == p2.rot.m21,
        p1.rot.m22 == p2.rot.m22,
        p1.t.z == p2.t.z,
    ensures
        sp_compose(p1, loc).rot.m20 == sp_compose(p2, loc).rot.m20,
        sp_compose(p1, loc).rot.m21 == sp_compose(p2, loc).rot.m21,
        sp_compose(p1, loc).rot.m22 == sp_compose(p2, loc).rot.m22,
        sp_compose(p1, loc).t.z == sp_compose(p2, loc).t.z,
{
    assert(sp_rot_entry(p1, loc, 2, 0) == sp_rot_entry(p2, loc, 2, 0));
    assert(sp_rot_entry(p1, loc, 2, 1) == sp_rot_entry(p2, loc, 2, 1));
    assert(sp_rot_entry(p1, loc, 2, 2) == sp_rot_entry(p2, loc, 2, 2));
    assert(sp_tr_entry(p1, loc, 2) == sp_tr_entry(p2, loc, 2));
}

/// Turning only the first joint, when that joint rotates about the
/// exact base Z axis with an identity offset, leaves the flange Z
/// coordinate unchanged: the base rotation moves the flange only in the
/// X/Y plane.
pub proof fn lemma_base_rotation_keeps_z(c: Chain, a1: Seq<i64>, a2: Seq<i64>)
    requires
        chain_wf(c),
        c.joints@[0] == (Joint {
            kind: JointKind::Rotational { axis: FxVec3 { x: 0, y: 0, z: FX_ONE } },
            offset: sp_identity(),
        }),
        a1.len() == 6,
        a2.len() == 6,
        forall|i: int| 1 <= i < 6 ==> a1[i] == a2[i],
        sp_flange(c, a1) is Some,
        sp_flange(c, a2) is Some,
    ensures
        sp_flange(c, a1)->Some_0.t.z == sp_flange(c, a2)->Some_0.t.z,
{
    lemma_frames_len(c, a1, 6);
    lemma_frames_len(c, a2, 6);
    lemma_frames_z_agree(c, a1, a2, 6);
    let f1 = sp_frames(c, a1, 6)->Some_0[5];
    let f2 = sp_frames(c, a2, 6)->Some_0[5];
    match c.end {
        None => {},
        Some(e) => {
            lemma_bottom_row_of_compose(f1, f2, e);
        },
    }
}

impl Chain {
    /// Build a chain from exactly six joints and an optional end
    /// adjustment.  Anything out of range is rejected, never corrected.
    pub fn new(joints: Vec<Joint>, end: Option<Transform>) -> (r: Result<Chain, KinError>)
        ensures
            match r {
                Ok(c) => c.joints@ == joints@ && c.end == end && chain_wf(c),
                Err(e) => {
                    ||| (e == KinError::BadLength && joints@.len() != 6)
                    ||| (e == KinError::OutOfRange && joints@.len() == 6)
                    ||| (e == KinError::NotUnitAxis && joints@.len() == 6)
                },
            },
            r is Err ==> !(joints@.len() == 6 && (forall|i: int|
                0 <= i < 6 ==> joint_wf(#[trigger] joints@[i])) && match end {
                Some(e) => transform_wf(e),
                None => true,
            }),
    {
        if joints.len() != 6 {
            return Err(KinError::BadLength);
        }
        let mut i: usize = 0;
        while i < 6
            invariant
                joints@.len() == 6,
                0 <= i <= 6,
                forall|k: int| 0 <= k < i ==> joint_wf(#[trigger] joints@[k]),
            decreases 6 - i,
        {
            let j = &joints[i];
            if !transform_in_range(&j.offset) {
                return Err(KinError::OutOfRange);
            }
            match j.kind {
                JointKind::Rotational { axis } => {
                    if !axis_is_unit(&axis) {
                        return Err(KinError::NotUnitAxis);
                    }
                },
                JointKind::Fixed => {},
            }
            i = i + 1;
        }
        match &end {
            Some(e) => {
                if !transform_in_range(e) {
                    return Err(KinError::OutOfRange);
                }
            },
            None => {},
        }
        Ok(Chain { joints, end })
    }

    /// The local frame of one joint at the given kinematic angle.
    fn joint_local(j: &Joint, angle: i64) -> (r: Result<Transform, KinError>)
        requires
            joint_wf(*j),
            -MAX_ANGLE_RAD <= angle <= MAX_ANGLE_RAD,
        ensures
            match r {
                Ok(t) => sp_joint_local(*j, angle as int) == Some(t) && transform_wf(t),
                Err(e) => e == KinError::OutOfRange && sp_joint_local(*j, angle as int) is None,
            },
    {
        match j.kind {
            JointKind::Rotational { axis } => {
                match Transform::from_axis_angle(&axis, angle) {
                    Ok(rt) => j.offset.compose(&rt),
                    Err(e) => {
                        proof {
                            assert(e == KinError::OutOfRange);
                        }
                        Err(KinError::OutOfRange)
                    },
                }
            },
            JointKind::Fixed => Ok(j.offset),
        }
    }

    /// Forward kinematics with the full per-joint frame sequence: one
    /// frame at every joint, the last one being the flange frame with
    /// the end adjustment applied.
    pub fn forward_with_links(&self, angles: &[i64; 6]) -> (r: Result<Vec<Transform>, KinError>)
        requires
            chain_wf(*self),
            angles_in_range(angles@),
        ensures
            match r {
                Ok(v) => {
                    &&& v@.len() == 6
                    &&& sp_frames(*self, angles@, 6) matches Some(fs) && (forall|k: int|
                        0 <= k < 5 ==> v@[k] == fs[k])
                    &&& sp_flange(*self, angles@) == Some(v@[5])
                    &&& forall|k: int| 0 <= k < 6 ==> transform_wf(#[trigger] v@[k])
                },
                Err(e) => e == KinError::OutOfRange && sp_flange(*self, angles@) is None,
            },
    {
        let mut frames: Vec<Transform> = Vec::new();
        let mut running = Transform::identity();
        let mut i: usize = 0;
        while i < 6
            invariant
                chain_wf(*self),
                angles_in_range(angles@),
                0 <= i <= 6,
                frames@.len() == i,
                sp_frames(*self, angles@, i as int) == Some(frames@),
                i == 0 ==> running == sp_identity(),
                i > 0 ==> running == frames@[i - 1],
                transform_wf(running),
                forall|k: int| 0 <= k < i ==> transform_wf(#[trigger] frames@[k]),
            decreases 6 - i,
        {
            let loc = match Self::joint_local(&self.joints[i], angles[i]) {
                Ok(t) => t,
                Err(e) => {
                    proof {
                        lemma_frames_none_propagates(*self, angles@, i as int + 1, 6);
                    }
                    return Err(KinError::OutOfRange);
                },
            };
            running = match running.compose(&loc) {
                Ok(t) => t,
                Err(e) => {
                    proof {
                        lemma_frames_none_propagates(*self, angles@, i as int + 1, 6);
                    }
                    return Err(KinError::OutOfRange);
                },
            };
            frames.push(running);
            i = i + 1;
        }
        let flange = match &self.end {
            None => {
                proof {
                    assert(sp_flange(*self, angles@) == Some(frames@[5]));
                }
                frames[5]
            },
            Some(e) => {
                match frames[5].compose(e) {
                    Ok(t) => t,
                    Err(_) => {
                        return Err(KinError::OutOfRange);
                    },
                }
            },
        };
        let ghost pre = frames@;
        frames.set(5, flange);
        proof {
            assert(forall|k: int| 0 <= k < 5 ==> frames@[k] == pre[k]);
        }
        Ok(frames)
    }

    /// Forward kinematics: the flange frame alone.  The result is the
    /// last entry of the full frame sequence.
    pub fn forward(&self, angles: &[i64; 6]) -> (r: Result<Transform, KinError>)
        requires
            chain_wf(*self),
            angles_in_range(angles@),
        ensures
            match r {
                Ok(t) => sp_flange(*self, angles@) == Some(t) && transform_wf(t),
                Err(e) => e == KinError::OutOfRange && sp_flange(*self, angles@) is None,
            },
    {
        match self.forward_with_links(angles) {
            Ok(v) => Ok(v[5]),
            Err(e) => Err(e),
        }
    }
}

} // verus!

//! The controller's pose convention.
//!
//! A pose is a world position in millimetres together with three ordered
//! rotation angles W, P, R in degrees.  The rotation they encode is
//! `Rz(R) * Ry(P) * Rx(W)`: first W about the fixed X axis, then P about
//! the fixed Y axis, then R about the fixed Z axis.
//!
//! At the pitch singularity (P at plus or minus ninety degrees) the W/R
//! split is not unique; the decomposition here fixes R to zero and puts
//! the whole remaining angle into W, deterministically.
//!
//! Equality of poses is judged on the rotation they encode, not on the
//! raw angle triples: see `approx_eq`.

use crate::fx::{
    deg_to_rad, floor_sqrt, fx_atan2, fx_dot3, fx_dot3_val, fx_half, fx_mul_val, fx_sin_cos,
    fx_sqrt, fxs, is_floor_sqrt, lemma_fx_dot3_small, lemma_fx_mul_val_bound, rad_to_deg, sp_half,
    spec_atan2, spec_cos, spec_sin, trig_in_range, FX_DEG_TO_RAD, FX_ONE, FX_RAD_TO_DEG,
    MAX_ANGLE_DEG, MAX_ANGLE_RAD,
};
use crate::transform::{
    ent, mat_wf, mul_small, transform_in_range, transform_wf, FxMat3, FxVec3, Transform,
    ROT_LIMIT, TR_LIMIT,
};
use crate::KinError;
use vstd::prelude::*;

verus! {

/// Below this magnitude of the pitch cosine the decomposition switches
/// to its deterministic gimbal-lock branch: about 1e-6.
pub const GIMBAL_TOL: i64 = 0x10000000;

/// A controller pose: position in millimetres, W/P/R angles in degrees,
/// all as Q16.48 fixed-point carriers.
#[derive(Clone, Copy, Debug, PartialEq, Eq, Structural)]
pub struct XyzWpr {
    pub x: i64,
    pub y: i64,
    pub z: i64,
    pub w: i64,
    pub p: i64,
    pub r: i64,
}

/// All six carriers of the pose within their accepted ranges.
pub open spec fn sp_pose_in_range(p: XyzWpr) -> bool {
    &&& -TR_LIMIT <= p.x <= TR_LIMIT
    &&& -TR_LIMIT <= p.y <= TR_LIMIT
    &&& -TR_LIMIT <= p.z <= TR_LIMIT
    &&& -MAX_ANGLE_DEG <= p.w <= MAX_ANGLE_DEG
    &&& -MAX_ANGLE_DEG <= p.p <= MAX_ANGLE_DEG
    &&& -MAX_ANGLE_DEG <= p.r <= MAX_ANGLE_DEG
}

/// The rotation matrix `Rz(r) * Ry(p) * Rx(w)` over the sines and
/// cosines of the three angles given in fixed-point radians, with every
/// product rounded exactly as the implementation rounds it.
pub open spec fn sp_wpr_rot(wr: int, pr: int, rr: int) -> FxMat3 {
    let s_w = spec_sin(wr);
    let c_w = spec_cos(wr);
    let s_p = spec_sin(pr);
    let c_p = spec_cos(pr);
    let s_r = spec_sin(rr);
    let c_r = spec_cos(rr);
    FxMat3 {
        m00: fx_mul_val(c_r, c_p) as i64,
        m01: (fx_mul_val(fx_mul_val(c_r, s_p), s_w) - fx_mul_val(s_r, c_w)) as i64,
        m02: (fx_mul_val(fx_mul_val(c_r, s_p), c_w) + fx_mul_val(s_r, s_w)) as i64,
        m10: fx_mul_val(s_r, c_p) as i64,
        m11: (fx_mul_val(fx_mul_val(s_r, s_p), s_w) + fx_mul_val(c_r, c_w)) as i64,
        m12: (fx_mul_val(fx_mul_val(s_r, s_p), c_w) - fx_mul_val(c_r, s_w)) as i64,
        m20: (-s_p) as i64,
        m21: fx_mul_val(c_p, s_w) as i64,
        m22: fx_mul_val(c_p, c_w) as i64,
    }
}

/// The radian carrier of each pose angle.
pub open spec fn sp_w_rad(p: XyzWpr) -> int {
    fx_mul_val(p.w as int, FX_DEG_TO_RAD as int)
}

pub open spec fn sp_p_rad(p: XyzWpr) -> int {
    fx_mul_val(p.p as int, FX_DEG_TO_RAD as int)
}

pub open spec fn sp_r_rad(p: XyzWpr) -> int {
    fx_mul_val(p.r as int, FX_DEG_TO_RAD as int)
}

/// The sines and cosines of all three converted angles are in range.
pub open spec fn sp_trig_ok(p: XyzWpr) -> bool {
    trig_in_range(sp_w_rad(p)) && trig_in_range(sp_p_rad(p)) && trig_in_range(sp_r_rad(p))
}

/// The rotation matrix a pose encodes.
pub open spec fn sp_pose_rot(p: XyzWpr) -> FxMat3 {
    sp_wpr_rot(sp_w_rad(p), sp_p_rad(p), sp_r_rad(p))
}

/// The rigid transform a pose encodes, or `None` when a carrier leaves
/// the representable range.
pub open spec fn sp_to_iso(p: XyzWpr) -> Option<Transform> {
    if !sp_pose_in_range(p) {
        None
    } else if !sp_trig_ok(p) {
        None
    } else if !mat_wf(sp_pose_rot(p)) {
        None
    } else {
        Some(Transform { rot: sp_pose_rot(p), t: FxVec3 { x: p.x, y: p.y, z: p.z } })
    }
}

impl XyzWpr {
    /// A pose from its six components: position in millimetres, then the
    /// W, P, R angles in degrees.
    pub fn new(x: i64, y: i64, z: i64, w: i64, p: i64, r: i64) -> (res: XyzWpr)
        ensures
            res == (XyzWpr { x, y, z, w, p, r }),
    {
        XyzWpr { x, y, z, w, p, r }
    }

    /// The rigid transform this pose encodes: the W/P/R rotation built
    /// from the three elemental rotations in convention order, combined
    /// with the position.
    pub fn to_isometry(&self) -> (res: Result<Transform, KinError>)
        ensures
            match res {
                Ok(t) => sp_to_iso(*self) == Some(t) && transform_wf(t),
                Err(e) => e == KinError::OutOfRange && sp_to_iso(*self) is None,
            },
    {
        let tl = TR_LIMIT;
        let al = MAX_ANGLE_DEG;
        if !(-tl <= self.x && self.x <= tl && -tl <= self.y && self.y <= tl && -tl <= self.z
            && self.z <= tl && -al <= self.w && self.w <= al && -al <= self.p && self.p <= al && -al
            <= self.r && self.r <= al) {
            return Err(KinError::OutOfRange);
        }
        let wr = deg_to_rad(self.w);
        let pr = deg_to_rad(self.p);
        let rr = deg_to_rad(self.r);
        let rot = match wpr_rot_from_rads(wr, pr, rr) {
            Ok(m) => m,
            Err(_) => {
                return Err(KinError::OutOfRange);
            },
        };
        let t = Transform { rot, t: FxVec3 { x: self.x, y: self.y, z: self.z } };
        if transform_in_range(&t) {
            Ok(t)
        } else {
            Err(KinError::OutOfRange)
        }
    }
}

/// The sines and cosines of all three angles, in fixed-point radians,
/// are in range.
pub open spec fn sp_wpr_trig_ok(wr: int, pr: int, rr: int) -> bool {
    trig_in_range(wr) && trig_in_range(pr) && trig_in_range(rr)
}

/// Build the `Rz(r) * Ry(p) * Rx(w)` rotation matrix from three angles
/// given in fixed-point radians.
pub fn wpr_rot_from_rads(wr: i64, pr: i64, rr: i64) -> (res: Result<FxMat3, KinError>)
    requires
        -MAX_ANGLE_RAD <= wr <= MAX_ANGLE_RAD,
        -MAX_ANGLE_RAD <= pr <= MAX_ANGLE_RAD,
        -MAX_ANGLE_RAD <= rr <= MAX_ANGLE_RAD,
    ensures
        match res {
            Ok(m) => sp_wpr_trig_ok(wr as int, pr as int, rr as int) && m == sp_wpr_rot(
                wr as int,
                pr as int,
                rr as int,
            ),
            Err(e) => e == KinError::OutOfRange && !sp_wpr_trig_ok(wr as int, pr as int, rr as int),
        },
{
    let (s_w, c_w) = match fx_sin_cos(wr) {
        Ok(p) => p,
        Err(_) => {
            return Err(KinError::OutOfRange);
        },
    };
    let (s_p, c_p) = match fx_sin_cos(pr) {
        Ok(p) => p,
        Err(_) => {
            return Err(KinError::OutOfRange);
        },
    };
    let (s_r, c_r) = match fx_sin_cos(rr) {
        Ok(p) => p,
        Err(_) => {
            return Err(KinError::OutOfRange);
        },
    };
    Ok(FxMat3 {
        m00: mul_small(c_r, c_p),
        m01: mul_small(mul_small(c_r, s_p), s_w) - mul_small(s_r, c_w),
        m02: mul_small(mul_small(c_r, s_p), c_w) + mul_small(s_r, s_w),
        m10: mul_small(s_r, c_p),
        m11: mul_small(mul_small(s_r, s_p), s_w) + mul_small(c_r, c_w),
        m12: mul_small(mul_small(s_r, s_p), c_w) - mul_small(c_r, s_w),
        m20: -s_p,
        m21: mul_small(c_p, s_w),
        m22: mul_small(c_p, c_w),
    })
}

/// The squared planar magnitude used to detect the pitch singularity:
/// the dot of (m00, m10) with itself, which tracks the pitch cosine.
pub open spec fn sp_pitch_cos2(m: FxMat3) -> int {
    fx_mul_val(m.m00 as int, m.m00 as int) + fx_mul_val(m.m10 as int, m.m10 as int)
}

/// The W/P/R decomposition of a rotation matrix, with the documented
/// tie-break: at the pitch singularity R is fixed to zero, P is exactly
/// plus or minus ninety degrees, and W takes the remaining angle.
pub open spec fn sp_from_iso(t: Transform) -> XyzWpr {
    let m = t.rot;
    let nx = floor_sqrt(sp_pitch_cos2(m) * fxs());
    if nx <= GIMBAL_TOL {
        if m.m20 >= 0 {
            XyzWpr {
                x: t.t.x,
                y: t.t.y,
                z: t.t.z,
                w: fx_mul_val(spec_atan2(-(m.m01 as int), m.m11 as int), FX_RAD_TO_DEG as int) as i64,
                p: (-90 * (FX_ONE as int)) as i64,
                r: 0,
            }
        } else {
            XyzWpr {
                x: t.t.x,
                y: t.t.y,
                z: t.t.z,
                w: fx_mul_val(spec_atan2(m.m01 as int, m.m11 as int), FX_RAD_TO_DEG as int) as i64,
                p: (90 * (FX_ONE as int)) as i64,
                r: 0,
            }
        }
    } else {
        XyzWpr {
            x: t.t.x,
            y: t.t.y,
            z: t.t.z,
            w: fx_mul_val(spec_atan2(m.m21 as int, m.m22 as int), FX_RAD_TO_DEG as int) as i64,
            p: fx_mul_val(spec_atan2(-(m.m20 as int), nx), FX_RAD_TO_DEG as int) as i64,
            r: fx_mul_val(spec_atan2(m.m10 as int, m.m00 as int), FX_RAD_TO_DEG as int) as i64,
        }
    }
}

impl XyzWpr {
    /// Decompose a rigid transform into the controller pose convention.
    /// Total on well-formed transforms; the gimbal-lock tie-break makes
    /// it deterministic everywhere.
    pub fn from_isometry(t: &Transform) -> (res: XyzWpr)
        requires
            transform_wf(*t),
        ensures
            res == sp_from_iso(*t),
            sp_pose_in_range(res),
    {
        let m = &t.rot;
        let q00 = mul_small(m.m00, m.m00);
        let q10 = mul_small(m.m10, m.m10);
        proof {
            lemma_square_scaled_nonneg(m.m00 as int);
            lemma_square_scaled_nonneg(m.m10 as int);
        }
        let nx2 = q00 + q10;
        let nx = fx_sqrt(nx2);
        proof {
            lemma_sqrt_small(nx2 as int, nx as int);
        }
        let (res, theta_w, theta_p, theta_r) = if nx <= GIMBAL_TOL {
            if m.m20 >= 0 {
                let tw = fx_atan2(-m.m01, m.m11);
                (
                    XyzWpr {
                        x: t.t.x,
                        y: t.t.y,
                        z: t.t.z,
                        w: rad_to_deg(tw),
                        p: -90 * FX_ONE,
                        r: 0,
                    },
                    tw,
                    0i64,
                    0i64,
                )
            } else {
                let tw = fx_atan2(m.m01, m.m11);
                (
                    XyzWpr {
                        x: t.t.x,
                        y: t.t.y,
                        z: t.t.z,
                        w: rad_to_deg(tw),
                        p: 90 * FX_ONE,
                        r: 0,
                    },
                    tw,
                    0i64,
                    0i64,
                )
            }
        } else {
            let tw = fx_atan2(m.m21, m.m22);
            let tp = fx_atan2(-m.m20, nx);
            let tr = fx_atan2(m.m10, m.m00);
            (
                XyzWpr {
                    x: t.t.x,
                    y: t.t.y,
                    z: t.t.z,
                    w: rad_to_deg(tw),
                    p: rad_to_deg(tp),
                    r: rad_to_deg(tr),
                },
                tw,
                tp,
                tr,
            )
        };
        proof {
            lemma_angle_within_limit(theta_w as int);
            lemma_angle_within_limit(theta_p as int);
            lemma_angle_within_limit(theta_r as int);
        }
        res
    }
}

/// A scaled square is never negative.
proof fn lemma_square_scaled_nonneg(a: int)
    ensures
        fx_mul_val(a, a) >= 0,
{
    assert(a * a >= 0) by (nonlinear_arith);
    vstd::arithmetic::div_mod::lemma_div_pos_is_pos(a * a, fxs());
}

/// The floor square root of a value below 64 units stays below 8 units.
proof fn lemma_sqrt_small(v: int, r: int)
    by (nonlinear_arith)
    requires
        0 <= v <= 64 * 0x1_0000_0000_0000,
        is_floor_sqrt(v * 0x1_0000_0000_0000, r),
    ensures
        0 <= r <= 8 * 0x1_0000_0000_0000,
{
}

/// A converted arc tangent lands well inside the degree range.
proof fn lemma_angle_within_limit(theta: int)
    requires
        -52 * (FX_ONE as int) <= theta <= 52 * (FX_ONE as int),
    ensures
        -MAX_ANGLE_DEG <= fx_mul_val(theta, FX_RAD_TO_DEG as int) <= MAX_ANGLE_DEG,
{
    lemma_fx_mul_val_bound(
        theta,
        FX_RAD_TO_DEG as int,
        0x34_0000_0000_0000,
        FX_RAD_TO_DEG as int,
    );
}

/// Entry (i, j) of the relative rotation between two rotation matrices:
/// the transpose of the first applied to the second.
pub open spec fn sp_rel_entry(a: FxMat3, b: FxMat3, i: int, j: int) -> int {
    fx_dot3_val(ent(a, 0, i), ent(a, 1, i), ent(a, 2, i), ent(b, 0, j), ent(b, 1, j), ent(b, 2, j))
}

/// The angle of the relative rotation between two rotation matrices,
/// from its sine (via the skew part) and cosine (via the trace).
pub open spec fn sp_rot_angle(a: FxMat3, b: FxMat3) -> int {
    let hx = sp_half(sp_rel_entry(a, b, 2, 1) - sp_rel_entry(a, b, 1, 2));
    let hy = sp_half(sp_rel_entry(a, b, 0, 2) - sp_rel_entry(a, b, 2, 0));
    let hz = sp_half(sp_rel_entry(a, b, 1, 0) - sp_rel_entry(a, b, 0, 1));
    let n2 = fx_dot3_val(hx, hy, hz, hx, hy, hz);
    let s_half = floor_sqrt(n2 * fxs());
    let c_half = sp_half(
        sp_rel_entry(a, b, 0, 0) + sp_rel_entry(a, b, 1, 1) + sp_rel_entry(a, b, 2, 2) - FX_ONE,
    );
    spec_atan2(s_half, c_half)
}

/// Approximate pose equality: positions within `tol` millimetres in each
/// component, and the angle of the relative rotation between the two
/// encoded orientations within `tol` radians.  Judged on the rotations,
/// so angle triples that encode the same orientation compare equal.
pub open spec fn sp_approx_eq(a: XyzWpr, b: XyzWpr, tol: int) -> bool {
    match (sp_to_iso(a), sp_to_iso(b)) {
        (Some(ta), Some(tb)) => {
            &&& -tol <= a.x - b.x <= tol
            &&& -tol <= a.y - b.y <= tol
            &&& -tol <= a.z - b.z <= tol
            &&& -tol <= sp_rot_angle(ta.rot, tb.rot) <= tol
        },
        _ => false,
    }
}

/// One entry of the relative rotation, executable.
fn rel_entry(a1: i64, a2: i64, a3: i64, b1: i64, b2: i64, b3: i64) -> (r: i64)
    requires
        -ROT_LIMIT <= a1 <= ROT_LIMIT,
        -ROT_LIMIT <= a2 <= ROT_LIMIT,
        -ROT_LIMIT <= a3 <= ROT_LIMIT,
        -ROT_LIMIT <= b1 <= ROT_LIMIT,
        -ROT_LIMIT <= b2 <= ROT_LIMIT,
        -ROT_LIMIT <= b3 <= ROT_LIMIT,
    ensures
        r == fx_dot3_val(a1 as int, a2 as int, a3 as int, b1 as int, b2 as int, b3 as int),
        -49 * (FX_ONE as int) <= r <= 48 * (FX_ONE as int),
{
    proof {
        lemma_fx_dot3_small(
            a1 as int,
            a2 as int,
            a3 as int,
            b1 as int,
            b2 as int,
            b3 as int,
            0x4_0000_0000_0000,
        );
        assert((3 * 0x4_0000_0000_0000int * 0x4_0000_0000_0000int) / fxs() == 48 * (
        FX_ONE as int)) by (nonlinear_arith);
    }
    match fx_dot3(a1, a2, a3, b1, b2, b3) {
        Some(v) => v,
        None => {
            proof {
                assert(false);
            }
            0
        },
    }
}

impl XyzWpr {
    /// Whether two poses agree within `tol`: positions componentwise in
    /// millimetres, orientations by the relative rotation angle in
    /// radians.  Poses whose carriers leave the representable range
    /// compare unequal.
    pub fn approx_eq(&self, other: &XyzWpr, tol: i64) -> (res: bool)
        ensures
            res == sp_approx_eq(*self, *other, tol as int),
    {
        let ta = match self.to_isometry() {
            Ok(t) => t,
            Err(_) => {
                return false;
            },
        };
        let tb = match other.to_isometry() {
            Ok(t) => t,
            Err(_) => {
                return false;
            },
        };
        let a = &ta.rot;
        let b = &tb.rot;
        let c00 = rel_entry(a.m00, a.m10, a.m20, b.m00, b.m10, b.m20);
        let c01 = rel_entry(a.m00, a.m10, a.m20, b.m01, b.m11, b.m21);
        let c02 = rel_entry(a.m00, a.m10, a.m20, b.m02, b.m12, b.m22);
        let c10 = rel_entry(a.m01, a.m11, a.m21, b.m00, b.m10, b.m20);
        let c11 = rel_entry(a.m01, a.m11, a.m21, b.m01, b.m11, b.m21);
        let c12 = rel_entry(a.m01, a.m11, a.m21, b.m02, b.m12, b.m22);
        let c20 = rel_entry(a.m02, a.m12, a.m22, b.m00, b.m10, b.m20);
        let c21 = rel_entry(a.m02, a.m12, a.m22, b.m01, b.m11, b.m21);
        let c22 = rel_entry(a.m02, a.m12, a.m22, b.m02, b.m12, b.m22);
        let hx = fx_half(c21 - c12);
        let hy = fx_half(c02 - c20);
        let hz = fx_half(c10 - c01);
        proof {
            lemma_fx_dot3_small(
                hx as int,
                hy as int,
                hz as int,
                hx as int,
                hy as int,
                hz as int,
                0x32_0000_0000_0000,
            );
            lemma_square_scaled_nonneg(hx as int);
        }
        let n2 = match fx_dot3(hx, hy, hz, hx, hy, hz) {
            Some(v) => v,
            None => {
                proof {
                    assert(false);
                }
                0
            },
        };
        proof {
            lemma_dot_self_nonneg(hx as int, hy as int, hz as int);
        }
        let s_half = fx_sqrt(n2);
        proof {
            lemma_sqrt_bound_generic(n2 as int, s_half as int);
        }
        let c_half = fx_half(c00 + c11 + c22 - FX_ONE);
        let theta = fx_atan2(s_half, c_half);
        let dx = self.x - other.x;
        let dy = self.y - other.y;
        let dz = self.z - other.z;
        -dx <= tol && dx <= tol && -dy <= tol && dy <= tol && -dz <= tol && dz <= tol && -theta
            <= tol && theta <= tol
    }
}

/// A vector dotted with itself is never negative after scaling.
proof fn lemma_dot_self_nonneg(x: int, y: int, z: int)
    ensures
        fx_dot3_val(x, y, z, x, y, z) >= 0,
{
    assert(x * x >= 0 && y * y >= 0 && z * z >= 0) by (nonlinear_arith);
    vstd::arithmetic::div_mod::lemma_div_pos_is_pos(x * x + y * y + z * z, fxs());
}

/// The floor square root of any value an `i64` carrier can hold fits the
/// arc-tangent argument range.
proof fn lemma_sqrt_bound_generic(v: int, r: int)
    by (nonlinear_arith)
    requires
        0 <= v <= 0x7fff_ffff_ffff_ffff,
        is_floor_sqrt(v * 0x1_0000_0000_0000, r),
    ensures
        0 <= r <= 0x4000_0000_0000_0000,
{
}

/// The positions of a pose and of the transform it encodes are the same
/// carriers, in both directions: decomposing a transform copies its
/// translation into the pose, and rebuilding copies it back.  The
/// position part of the pose round trip is exact.
pub proof fn lemma_position_round_trip(t: Transform)
    requires
        transform_wf(t),
    ensures
        sp_from_iso(t).x == t.t.x,
        sp_from_iso(t).y == t.t.y,
        sp_from_iso(t).z == t.t.z,
        match sp_to_iso(sp_from_iso(t)) {
            Some(u) => u.t == t.t,
            None => true,
        },
{
}

} // verus!

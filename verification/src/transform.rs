//! Rigid transforms over Q16.48 fixed-point scalars.
//!
//! A transform combines a 3x3 rotation matrix and a translation vector.
//! Composition, inversion and application are exact to their integer
//! specifications; every operation that could leave the representable
//! range reports `KinError::OutOfRange` instead of wrapping or panicking.

use crate::fx::{
    fx_dot3, fx_dot3_fits, fx_dot3_val, fx_mul, fx_mul_val, fx_sin_cos, fxs, lemma_fx_dot3_small,
    lemma_fx_mul_val_bound, spec_cos, spec_sin, trig_in_range, FX_ONE, MAX_ANGLE_RAD,
};
use crate::KinError;
use vstd::arithmetic::div_mod::lemma_div_multiples_vanish;
use vstd::prelude::*;

verus! {

/// Bound on the magnitude of a rotation-matrix entry: four units.  A true
/// direction cosine stays within one; the slack absorbs rounding.
pub const ROT_LIMIT: i64 = 4 * FX_ONE;

/// Bound on the magnitude of a translation component: 4096 millimetres,
/// which is far beyond the reach of the robot family modelled here.
pub const TR_LIMIT: i64 = 4096 * FX_ONE;

/// A 3-vector of fixed-point scalars.
#[derive(Clone, Copy, Debug, PartialEq, Eq, Structural)]
pub struct FxVec3 {
    pub x: i64,
    pub y: i64,
    pub z: i64,
}

/// A 3x3 matrix of fixed-point scalars, row major: `mRC` is row R, column C.
#[derive(Clone, Copy, Debug, PartialEq, Eq, Structural)]
pub struct FxMat3 {
    pub m00: i64,
    pub m01: i64,
    pub m02: i64,
    pub m10: i64,
    pub m11: i64,
    pub m12: i64,
    pub m20: i64,
    pub m21: i64,
    pub m22: i64,
}

/// A rigid transform: rotation followed by translation.
#[derive(Clone, Copy, Debug, PartialEq, Eq, Structural)]
pub struct Transform {
    pub rot: FxMat3,
    pub t: FxVec3,
}

/// Matrix entry by spec-level index, row major.
pub open spec fn ent(m: FxMat3, i: int, j: int) -> int {
    if i == 0 {
        if j == 0 {
            m.m00 as int
        } else if j == 1 {
            m.m01 as int
        } else {
            m.m02 as int
        }
    } else if i == 1 {
        if j == 0 {
            m.m10 as int
        } else if j == 1 {
            m.m11 as int
        } else {
            m.m12 as int
        }
    } else {
        if j == 0 {
            m.m20 as int
        } else if j == 1 {
            m.m21 as int
        } else {
            m.m22 as int
        }
    }
}

/// Vector component by spec-level index.
pub open spec fn vcomp(v: FxVec3, i: int) -> int {
    if i == 0 {
        v.x as int
    } else if i == 1 {
        v.y as int
    } else {
        v.z as int
    }
}

/// Every component within the translation bound.
pub open spec fn vec_wf(v: FxVec3) -> bool {
    &&& -TR_LIMIT <= v.x <= TR_LIMIT
    &&& -TR_LIMIT <= v.y <= TR_LIMIT
    &&& -TR_LIMIT <= v.z <= TR_LIMIT
}

/// Every entry within the rotation bound.
pub open spec fn mat_wf(m: FxMat3) -> bool {
    &&& -ROT_LIMIT <= m.m00 <= ROT_LIMIT
    &&& -ROT_LIMIT <= m.m01 <= ROT_LIMIT
    &&& -ROT_LIMIT <= m.m02 <= ROT_LIMIT
    &&& -ROT_LIMIT <= m.m10 <= ROT_LIMIT
    &&& -ROT_LIMIT <= m.m11 <= ROT_LIMIT
    &&& -ROT_LIMIT <= m.m12 <= ROT_LIMIT
    &&& -ROT_LIMIT <= m.m20 <= ROT_LIMIT
    &&& -ROT_LIMIT <= m.m21 <= ROT_LIMIT
    &&& -ROT_LIMIT <= m.m22 <= ROT_LIMIT
}

/// Well-formed transform: all carriers within their bounds.
pub open spec fn transform_wf(t: Transform) -> bool {
    mat_wf(t.rot) && vec_wf(t.t)
}

/// The identity transform.
pub open spec fn sp_identity() -> Transform {
    Transform {
        rot: FxMat3 {
            m00: FX_ONE,
            m01: 0,
            m02: 0,
            m10: 0,
            m11: FX_ONE,
            m12: 0,
            m20: 0,
            m21: 0,
            m22: FX_ONE,
        },
        t: FxVec3 { x: 0, y: 0, z: 0 },
    }
}

/// A rotation-matrix entry of a product is acceptable when the scaled dot
/// product of the row and column stays within the rotation bound.
pub open spec fn rot_entry_ok(a1: int, a2: int, a3: int, b1: int, b2: int, b3: int) -> bool {
    -ROT_LIMIT <= fx_dot3_val(a1, a2, a3, b1, b2, b3) <= ROT_LIMIT
}

/// A translation component of a product is acceptable when the scaled dot
/// product fits `i64` and the shifted sum stays within the bound.
pub open spec fn tr_entry_ok(a1: int, a2: int, a3: int, b1: int, b2: int, b3: int, c: int) -> bool {
    &&& fx_dot3_fits(a1, a2, a3, b1, b2, b3)
    &&& -TR_LIMIT <= fx_dot3_val(a1, a2, a3, b1, b2, b3) + c <= TR_LIMIT
}

/// One rotation entry of a matrix product, checked against the bound.
fn dot_rot(a1: i64, a2: i64, a3: i64, b1: i64, b2: i64, b3: i64) -> (r: Result<i64, KinError>)
    requires
        -ROT_LIMIT <= a1 <= ROT_LIMIT,
        -ROT_LIMIT <= a2 <= ROT_LIMIT,
        -ROT_LIMIT <= a3 <= ROT_LIMIT,
        -ROT_LIMIT <= b1 <= ROT_LIMIT,
        -ROT_LIMIT <= b2 <= ROT_LIMIT,
        -ROT_LIMIT <= b3 <= ROT_LIMIT,
    ensures
        match r {
            Ok(v) => v == fx_dot3_val(a1 as int, a2 as int, a3 as int, b1 as int, b2 as int,
                b3 as int) && -ROT_LIMIT <= v <= ROT_LIMIT,
            Err(e) => e == KinError::OutOfRange,
        },
        r is Ok <==> rot_entry_ok(a1 as int, a2 as int, a3 as int, b1 as int, b2 as int,
            b3 as int),
{
    match fx_dot3(a1, a2, a3, b1, b2, b3) {
        Some(v) => {
            if -ROT_LIMIT <= v && v <= ROT_LIMIT {
                Ok(v)
            } else {
                Err(KinError::OutOfRange)
            }
        },
        None => Err(KinError::OutOfRange),
    }
}

/// One translation component of a transform product: the rotated vector
/// component plus the carrier of the left factor, checked at run time.
fn dot_tr(a1: i64, a2: i64, a3: i64, b1: i64, b2: i64, b3: i64, c: i64) -> (r: Result<
    i64,
    KinError,
>)
    requires
        -ROT_LIMIT <= a1 <= ROT_LIMIT,
        -ROT_LIMIT <= a2 <= ROT_LIMIT,
        -ROT_LIMIT <= a3 <= ROT_LIMIT,
        -TR_LIMIT <= b1 <= TR_LIMIT,
        -TR_LIMIT <= b2 <= TR_LIMIT,
        -TR_LIMIT <= b3 <= TR_LIMIT,
        -TR_LIMIT <= c <= TR_LIMIT,
    ensures
        match r {
            Ok(v) => v == fx_dot3_val(a1 as int, a2 as int, a3 as int, b1 as int, b2 as int,
                b3 as int) + c && -TR_LIMIT <= v <= TR_LIMIT,
            Err(e) => e == KinError::OutOfRange,
        },
        r is Ok <==> tr_entry_ok(a1 as int, a2 as int, a3 as int, b1 as int, b2 as int, b3 as int,
            c as int),
{
    match fx_dot3(a1, a2, a3, b1, b2, b3) {
        Some(v) => {
            match v.checked_add(c) {
                Some(s) => {
                    if -TR_LIMIT <= s && s <= TR_LIMIT {
                        Ok(s)
                    } else {
                        Err(KinError::OutOfRange)
                    }
                },
                None => Err(KinError::OutOfRange),
            }
        },
        None => Err(KinError::OutOfRange),
    }
}

/// Rotation entry (i, j) of the composition `a` then-applied-after `b`.
pub open spec fn sp_rot_entry(a: Transform, b: Transform, i: int, j: int) -> int {
    fx_dot3_val(
        ent(a.rot, i, 0),
        ent(a.rot, i, 1),
        ent(a.rot, i, 2),
        ent(b.rot, 0, j),
        ent(b.rot, 1, j),
        ent(b.rot, 2, j),
    )
}

/// Translation component i of the composition: row i of `a.rot` applied
/// to `b.t`, shifted by `a.t`.
pub open spec fn sp_tr_entry(a: Transform, b: Transform, i: int) -> int {
    fx_dot3_val(
        ent(a.rot, i, 0),
        ent(a.rot, i, 1),
        ent(a.rot, i, 2),
        vcomp(b.t, 0),
        vcomp(b.t, 1),
        vcomp(b.t, 2),
    ) + vcomp(a.t, i)
}

/// All twelve carriers of the composition stay within their bounds.
pub open spec fn compose_fits(a: Transform, b: Transform) -> bool {
    &&& forall|i: int, j: int|
        0 <= i < 3 && 0 <= j < 3 ==> -ROT_LIMIT <= #[trigger] sp_rot_entry(a, b, i, j)
            <= ROT_LIMIT
    &&& forall|i: int|
        0 <= i < 3 ==> tr_entry_ok(
            ent(a.rot, i, 0),
            ent(a.rot, i, 1),
            ent(a.rot, i, 2),
            vcomp(b.t, 0),
            vcomp(b.t, 1),
            vcomp(b.t, 2),
            vcomp(a.t, i),
        )
}

/// The composition of two transforms, entry by entry.
pub open spec fn sp_compose(a: Transform, b: Transform) -> Transform {
    Transform {
        rot: FxMat3 {
            m00: sp_rot_entry(a, b, 0, 0) as i64,
            m01: sp_rot_entry(a, b, 0, 1) as i64,
            m02: sp_rot_entry(a, b, 0, 2) as i64,
            m10: sp_rot_entry(a, b, 1, 0) as i64,
            m11: sp_rot_entry(a, b, 1, 1) as i64,
            m12: sp_rot_entry(a, b, 1, 2) as i64,
            m20: sp_rot_entry(a, b, 2, 0) as i64,
            m21: sp_rot_entry(a, b, 2, 1) as i64,
            m22: sp_rot_entry(a, b, 2, 2) as i64,
        },
        t: FxVec3 {
            x: sp_tr_entry(a, b, 0) as i64,
            y: sp_tr_entry(a, b, 1) as i64,
            z: sp_tr_entry(a, b, 2) as i64,
        },
    }
}

impl Transform {
    /// The identity transform, the two-sided unit of composition.
    pub fn identity() -> (r: Transform)
        ensures
            r == sp_identity(),
            transform_wf(r),
    {
        Transform {
            rot: FxMat3 {
                m00: FX_ONE,
                m01: 0,
                m02: 0,
                m10: 0,
                m11: FX_ONE,
                m12: 0,
                m20: 0,
                m21: 0,
                m22: FX_ONE,
            },
            t: FxVec3 { x: 0, y: 0, z: 0 },
        }
    }

    /// Composition `self * other`: the transform that applies `other`
    /// first and `self` second, as in matrix multiplication.
    pub fn compose(&self, other: &Transform) -> (r: Result<Transform, KinError>)
        requires
            transform_wf(*self),
            transform_wf(*other),
        ensures
            match r {
                Ok(c) => c == sp_compose(*self, *other) && transform_wf(c) && compose_fits(
                    *self,
                    *other,
                ),
                Err(e) => e == KinError::OutOfRange && !compose_fits(*self, *other),
            },
    {
        let a = self;
        let b = other;
        let m00 = dot_rot(a.rot.m00, a.rot.m01, a.rot.m02, b.rot.m00, b.rot.m10, b.rot.m20);
        let m01 = dot_rot(a.rot.m00, a.rot.m01, a.rot.m02, b.rot.m01, b.rot.m11, b.rot.m21);
        let m02 = dot_rot(a.rot.m00, a.rot.m01, a.rot.m02, b.rot.m02, b.rot.m12, b.rot.m22);
        let m10 = dot_rot(a.rot.m10, a.rot.m11, a.rot.m12, b.rot.m00, b.rot.m10, b.rot.m20);
        let m11 = dot_rot(a.rot.m10, a.rot.m11, a.rot.m12, b.rot.m01, b.rot.m11, b.rot.m21);
        let m12 = dot_rot(a.rot.m10, a.rot.m11, a.rot.m12, b.rot.m02, b.rot.m12, b.rot.m22);
        let m20 = dot_rot(a.rot.m20, a.rot.m21, a.rot.m22, b.rot.m00, b.rot.m10, b.rot.m20);
        let m21 = dot_rot(a.rot.m20, a.rot.m21, a.rot.m22, b.rot.m01, b.rot.m11, b.rot.m21);
        let m22 = dot_rot(a.rot.m20, a.rot.m21, a.rot.m22, b.rot.m02, b.rot.m12, b.rot.m22);
        let tx = dot_tr(a.rot.m00, a.rot.m01, a.rot.m02, b.t.x, b.t.y, b.t.z, a.t.x);
        let ty = dot_tr(a.rot.m10, a.rot.m11, a.rot.m12, b.t.x, b.t.y, b.t.z, a.t.y);
        let tz = dot_tr(a.rot.m20, a.rot.m21, a.rot.m22, b.t.x, b.t.y, b.t.z, a.t.z);
        match (m00, m01, m02, m10, m11, m12, m20, m21, m22, tx, ty, tz) {
            (
                Ok(m00),
                Ok(m01),
                Ok(m02),
                Ok(m10),
                Ok(m11),
                Ok(m12),
                Ok(m20),
                Ok(m21),
                Ok(m22),
                Ok(tx),
                Ok(ty),
                Ok(tz),
            ) => {
                let c = Transform {
                    rot: FxMat3 { m00, m01, m02, m10, m11, m12, m20, m21, m22 },
                    t: FxVec3 { x: tx, y: ty, z: tz },
                };
                proof {
                    assert forall|i: int, j: int| 0 <= i < 3 && 0 <= j < 3 implies -ROT_LIMIT
                        <= #[trigger] sp_rot_entry(*a, *b, i, j) <= ROT_LIMIT by {
                        assert(sp_rot_entry(*a, *b, 0, 0) == m00 as int);
                        assert(sp_rot_entry(*a, *b, 0, 1) == m01 as int);
                        assert(sp_rot_entry(*a, *b, 0, 2) == m02 as int);
                        assert(sp_rot_entry(*a, *b, 1, 0) == m10 as int);
                        assert(sp_rot_entry(*a, *b, 1, 1) == m11 as int);
                        assert(sp_rot_entry(*a, *b, 1, 2) == m12 as int);
                        assert(sp_rot_entry(*a, *b, 2, 0) == m20 as int);
                        assert(sp_rot_entry(*a, *b, 2, 1) == m21 as int);
                        assert(sp_rot_entry(*a, *b, 2, 2) == m22 as int);
                    }
                    assert forall|i: int| 0 <= i < 3 implies tr_entry_ok(
                        ent(a.rot, i, 0),
                        ent(a.rot, i, 1),
                        ent(a.rot, i, 2),
                        vcomp(b.t, 0),
                        vcomp(b.t, 1),
                        vcomp(b.t, 2),
                        vcomp(a.t, i),
                    ) by {
                        assert(sp_tr_entry(*a, *b, 0) == tx as int);
                        assert(sp_tr_entry(*a, *b, 1) == ty as int);
                        assert(sp_tr_entry(*a, *b, 2) == tz as int);
                    }
                    assert(c.rot.m00 == sp_rot_entry(*a, *b, 0, 0) as i64);
                    assert(c.rot.m01 == sp_rot_entry(*a, *b, 0, 1) as i64);
                    assert(c.rot.m02 == sp_rot_entry(*a, *b, 0, 2) as i64);
                    assert(c.rot.m10 == sp_rot_entry(*a, *b, 1, 0) as i64);
                    assert(c.rot.m11 == sp_rot_entry(*a, *b, 1, 1) as i64);
                    assert(c.rot.m12 == sp_rot_entry(*a, *b, 1, 2) as i64);
                    assert(c.rot.m20 == sp_rot_entry(*a, *b, 2, 0) as i64);
                    assert(c.rot.m21 == sp_rot_entry(*a, *b, 2, 1) as i64);
                    assert(c.rot.m22 == sp_rot_entry(*a, *b, 2, 2) as i64);
                    assert(c.t.x == sp_tr_entry(*a, *b, 0) as i64);
                    assert(c.t.y == sp_tr_entry(*a, *b, 1) as i64);
                    assert(c.t.z == sp_tr_entry(*a, *b, 2) as i64);
                }
                Ok(c)
            },
            _ => {
                proof {
                    if m00 is Err {
                        assert(!(-ROT_LIMIT <= sp_rot_entry(*a, *b, 0, 0) <= ROT_LIMIT));
                    } else if m01 is Err {
                        assert(!(-ROT_LIMIT <= sp_rot_entry(*a, *b, 0, 1) <= ROT_LIMIT));
                    } else if m02 is Err {
                        assert(!(-ROT_LIMIT <= sp_rot_entry(*a, *b, 0, 2) <= ROT_LIMIT));
                    } else if m10 is Err {
                        assert(!(-ROT_LIMIT <= sp_rot_entry(*a, *b, 1, 0) <= ROT_LIMIT));
                    } else if m11 is Err {
                        assert(!(-ROT_LIMIT <= sp_rot_entry(*a, *b, 1, 1) <= ROT_LIMIT));
                    } else if m12 is Err {
                        assert(!(-ROT_LIMIT <= sp_rot_entry(*a, *b, 1, 2) <= ROT_LIMIT));
                    } else if m20 is Err {
                        assert(!(-ROT_LIMIT <= sp_rot_entry(*a, *b, 2, 0) <= ROT_LIMIT));
                    } else if m21 is Err {
                        assert(!(-ROT_LIMIT <= sp_rot_entry(*a, *b, 2, 1) <= ROT_LIMIT));
                    } else if m22 is Err {
                        assert(!(-ROT_LIMIT <= sp_rot_entry(*a, *b, 2, 2) <= ROT_LIMIT));
                    } else if tx is Err {
                        assert(!tr_entry_ok(
                            ent(a.rot, 0, 0),
                            ent(a.rot, 0, 1),
                            ent(a.rot, 0, 2),
                            vcomp(b.t, 0),
                            vcomp(b.t, 1),
                            vcomp(b.t, 2),
                            vcomp(a.t, 0),
                        ));
                    } else if ty is Err {
                        assert(!tr_entry_ok(
                            ent(a.rot, 1, 0),
                            ent(a.rot, 1, 1),
                            ent(a.rot, 1, 2),
                            vcomp(b.t, 0),
                            vcomp(b.t, 1),
                            vcomp(b.t, 2),
                            vcomp(a.t, 1),
                        ));
                    } else {
                        assert(tz is Err);
                        assert(!tr_entry_ok(
                            ent(a.rot, 2, 0),
                            ent(a.rot, 2, 1),
                            ent(a.rot, 2, 2),
                            vcomp(b.t, 0),
                            vcomp(b.t, 1),
                            vcomp(b.t, 2),
                            vcomp(a.t, 2),
                        ));
                    }
                    assert(!compose_fits(*a, *b));
                }
                Err(KinError::OutOfRange)
            },
        }
    }

    /// The inverse transform: the transposed rotation, and the negated,
    /// back-rotated translation.
    pub fn inverse(&self) -> (r: Result<Transform, KinError>)
        requires
            transform_wf(*self),
        ensures
            match r {
                Ok(c) => c == sp_inverse(*self) && transform_wf(c) && inverse_fits(*self),
                Err(e) => e == KinError::OutOfRange && !inverse_fits(*self),
            },
    {
        let a = self;
        let tx = dot_tr(a.rot.m00, a.rot.m10, a.rot.m20, a.t.x, a.t.y, a.t.z, 0);
        let ty = dot_tr(a.rot.m01, a.rot.m11, a.rot.m21, a.t.x, a.t.y, a.t.z, 0);
        let tz = dot_tr(a.rot.m02, a.rot.m12, a.rot.m22, a.t.x, a.t.y, a.t.z, 0);
        match (tx, ty, tz) {
            (Ok(tx), Ok(ty), Ok(tz)) => {
                let c = Transform {
                    rot: FxMat3 {
                        m00: a.rot.m00,
                        m01: a.rot.m10,
                        m02: a.rot.m20,
                        m10: a.rot.m01,
                        m11: a.rot.m11,
                        m12: a.rot.m21,
                        m20: a.rot.m02,
                        m21: a.rot.m12,
                        m22: a.rot.m22,
                    },
                    t: FxVec3 { x: -tx, y: -ty, z: -tz },
                };
                proof {
                    assert(sp_inv_tr_entry(*a, 0) == -(tx as int));
                    assert(sp_inv_tr_entry(*a, 1) == -(ty as int));
                    assert(sp_inv_tr_entry(*a, 2) == -(tz as int));
                    assert forall|i: int| 0 <= i < 3 implies tr_entry_ok(
                        ent(a.rot, 0, i),
                        ent(a.rot, 1, i),
                        ent(a.rot, 2, i),
                        vcomp(a.t, 0),
                        vcomp(a.t, 1),
                        vcomp(a.t, 2),
                        0,
                    ) by {
                        assert(tr_entry_ok(
                            ent(a.rot, 0, 0),
                            ent(a.rot, 1, 0),
                            ent(a.rot, 2, 0),
                            vcomp(a.t, 0),
                            vcomp(a.t, 1),
                            vcomp(a.t, 2),
                            0,
                        ));
                        assert(tr_entry_ok(
                            ent(a.rot, 0, 1),
                            ent(a.rot, 1, 1),
                            ent(a.rot, 2, 1),
                            vcomp(a.t, 0),
                            vcomp(a.t, 1),
                            vcomp(a.t, 2),
                            0,
                        ));
                        assert(tr_entry_ok(
                            ent(a.rot, 0, 2),
                            ent(a.rot, 1, 2),
                            ent(a.rot, 2, 2),
                            vcomp(a.t, 0),
                            vcomp(a.t, 1),
                            vcomp(a.t, 2),
                            0,
                        ));
                    }
                }
                Ok(c)
            },
            _ => {
                proof {
                    if tx is Err {
                        assert(!tr_entry_ok(
                            ent(a.rot, 0, 0),
                            ent(a.rot, 1, 0),
                            ent(a.rot, 2, 0),
                            vcomp(a.t, 0),
                            vcomp(a.t, 1),
                            vcomp(a.t, 2),
                            0,
                        ));
                    } else if ty is Err {
                        assert(!tr_entry_ok(
                            ent(a.rot, 0, 1),
                            ent(a.rot, 1, 1),
                            ent(a.rot, 2, 1),
                            vcomp(a.t, 0),
                            vcomp(a.t, 1),
                            vcomp(a.t, 2),
                            0,
                        ));
                    } else {
                        assert(!tr_entry_ok(
                            ent(a.rot, 0, 2),
                            ent(a.rot, 1, 2),
                            ent(a.rot, 2, 2),
                            vcomp(a.t, 0),
                            vcomp(a.t, 1),
                            vcomp(a.t, 2),
                            0,
                        ));
                    }
                    assert(!inverse_fits(*a));
                }
                Err(KinError::OutOfRange)
            },
        }
    }

    /// Apply the transform to a point: rotate, then translate.
    pub fn apply(&self, p: &FxVec3) -> (r: Result<FxVec3, KinError>)
        requires
            transform_wf(*self),
            vec_wf(*p),
        ensures
            match r {
                Ok(q) => q == sp_apply(*self, *p) && vec_wf(q) && apply_fits(*self, *p),
                Err(e) => e == KinError::OutOfRange && !apply_fits(*self, *p),
            },
    {
        let a = self;
        let tx = dot_tr(a.rot.m00, a.rot.m01, a.rot.m02, p.x, p.y, p.z, a.t.x);
        let ty = dot_tr(a.rot.m10, a.rot.m11, a.rot.m12, p.x, p.y, p.z, a.t.y);
        let tz = dot_tr(a.rot.m20, a.rot.m21, a.rot.m22, p.x, p.y, p.z, a.t.z);
        match (tx, ty, tz) {
            (Ok(tx), Ok(ty), Ok(tz)) => {
                proof {
                    assert(sp_apply_entry(*a, *p, 0) == tx as int);
                    assert(sp_apply_entry(*a, *p, 1) == ty as int);
                    assert(sp_apply_entry(*a, *p, 2) == tz as int);
                    assert forall|i: int| 0 <= i < 3 implies tr_entry_ok(
                        ent(a.rot, i, 0),
                        ent(a.rot, i, 1),
                        ent(a.rot, i, 2),
                        vcomp(*p, 0),
                        vcomp(*p, 1),
                        vcomp(*p, 2),
                        vcomp(a.t, i),
                    ) by {
                        assert(sp_apply_entry(*a, *p, 0) == tx as int);
                        assert(sp_apply_entry(*a, *p, 1) == ty as int);
                        assert(sp_apply_entry(*a, *p, 2) == tz as int);
                    }
                }
                Ok(FxVec3 { x: tx, y: ty, z: tz })
            },
            _ => {
                proof {
                    if tx is Err {
                        assert(!tr_entry_ok(
                            ent(a.rot, 0, 0),
                            ent(a.rot, 0, 1),
                            ent(a.rot, 0, 2),
                            vcomp(*p, 0),
                            vcomp(*p, 1),
                            vcomp(*p, 2),
                            vcomp(a.t, 0),
                        ));
                    } else if ty is Err {
                        assert(!tr_entry_ok(
                            ent(a.rot, 1, 0),
                            ent(a.rot, 1, 1),
                            ent(a.rot, 1, 2),
                            vcomp(*p, 0),
                            vcomp(*p, 1),
                            vcomp(*p, 2),
                            vcomp(a.t, 1),
                        ));
                    } else {
                        assert(!tr_entry_ok(
                            ent(a.rot, 2, 0),
                            ent(a.rot, 2, 1),
                            ent(a.rot, 2, 2),
                            vcomp(*p, 0),
                            vcomp(*p, 1),
                            vcomp(*p, 2),
                            vcomp(a.t, 2),
                        ));
                    }
                    assert(!apply_fits(*a, *p));
                }
                Err(KinError::OutOfRange)
            },
        }
    }

    /// Apply only the rotation part to a vector: no translation.
    pub fn apply_to_vector(&self, v: &FxVec3) -> (r: Result<FxVec3, KinError>)
        requires
            transform_wf(*self),
            vec_wf(*v),
        ensures
            match r {
                Ok(q) => q == sp_apply_vec(*self, *v) && vec_wf(q) && apply_vec_fits(*self, *v),
                Err(e) => e == KinError::OutOfRange && !apply_vec_fits(*self, *v),
            },
    {
        let a = self;
        let tx = dot_tr(a.rot.m00, a.rot.m01, a.rot.m02, v.x, v.y, v.z, 0);
        let ty = dot_tr(a.rot.m10, a.rot.m11, a.rot.m12, v.x, v.y, v.z, 0);
        let tz = dot_tr(a.rot.m20, a.rot.m21, a.rot.m22, v.x, v.y, v.z, 0);
        match (tx, ty, tz) {
            (Ok(tx), Ok(ty), Ok(tz)) => {
                proof {
                    assert(sp_apply_vec_entry(*a, *v, 0) == tx as int);
                    assert(sp_apply_vec_entry(*a, *v, 1) == ty as int);
                    assert(sp_apply_vec_entry(*a, *v, 2) == tz as int);
                    assert forall|i: int| 0 <= i < 3 implies tr_entry_ok(
                        ent(a.rot, i, 0),
                        ent(a.rot, i, 1),
                        ent(a.rot, i, 2),
                        vcomp(*v, 0),
                        vcomp(*v, 1),
                        vcomp(*v, 2),
                        0,
                    ) by {
                        assert(sp_apply_vec_entry(*a, *v, 0) == tx as int);
                        assert(sp_apply_vec_entry(*a, *v, 1) == ty as int);
                        assert(sp_apply_vec_entry(*a, *v, 2) == tz as int);
                    }
                }
                Ok(FxVec3 { x: tx, y: ty, z: tz })
            },
            _ => {
                proof {
                    if tx is Err {
                        assert(!tr_entry_ok(
                            ent(a.rot, 0, 0),
                            ent(a.rot, 0, 1),
                            ent(a.rot, 0, 2),
                            vcomp(*v, 0),
                            vcomp(*v, 1),
                            vcomp(*v, 2),
                            0,
                        ));
                    } else if ty is Err {
                        assert(!tr_entry_ok(
                            ent(a.rot, 1, 0),
                            ent(a.rot, 1, 1),
                            ent(a.rot, 1, 2),
                            vcomp(*v, 0),
                            vcomp(*v, 1),
                            vcomp(*v, 2),
                            0,
                        ));
                    } else {
                        assert(!tr_entry_ok(
                            ent(a.rot, 2, 0),
                            ent(a.rot, 2, 1),
                            ent(a.rot, 2, 2),
                            vcomp(*v, 0),
                            vcomp(*v, 1),
                            vcomp(*v, 2),
                            0,
                        ));
                    }
                    assert(!apply_vec_fits(*a, *v));
                }
                Err(KinError::OutOfRange)
            },
        }
    }

    /// The pure rotation by `angle` radians about the given unit axis,
    /// built by the Rodrigues formula from the CORDIC sine and cosine.
    /// A non-unit axis is rejected, never silently normalised.
    pub fn from_axis_angle(axis: &FxVec3, angle: i64) -> (r: Result<Transform, KinError>)
        requires
            -MAX_ANGLE_RAD <= angle <= MAX_ANGLE_RAD,
        ensures
            match r {
                Ok(c) => axis_unit_ok(*axis) && rodrigues_ok(*axis, angle as int) && c == (
                Transform { rot: sp_rodrigues(*axis, angle as int), t: FxVec3 { x: 0, y: 0, z: 0 } })
                    && transform_wf(c),
                Err(e) => (e == KinError::NotUnitAxis && !axis_unit_ok(*axis)) || (e
                    == KinError::OutOfRange && axis_unit_ok(*axis) && !rodrigues_ok(
                    *axis,
                    angle as int,
                )),
            },
    {
        if !axis_is_unit(axis) {
            return Err(KinError::NotUnitAxis);
        }
        let (s, c) = match fx_sin_cos(angle) {
            Ok(p) => p,
            Err(e) => {
                return Err(KinError::OutOfRange);
            },
        };
        let oc = FX_ONE - c;
        let xx = mul_small(axis.x, axis.x);
        let xy = mul_small(axis.x, axis.y);
        let xz = mul_small(axis.x, axis.z);
        let yy = mul_small(axis.y, axis.y);
        let yz = mul_small(axis.y, axis.z);
        let zz = mul_small(axis.z, axis.z);
        let sx = mul_small(s, axis.x);
        let sy = mul_small(s, axis.y);
        let sz = mul_small(s, axis.z);
        let rot = FxMat3 {
            m00: mul_small(oc, xx) + c,
            m01: mul_small(oc, xy) - sz,
            m02: mul_small(oc, xz) + sy,
            m10: mul_small(oc, xy) + sz,
            m11: mul_small(oc, yy) + c,
            m12: mul_small(oc, yz) - sx,
            m20: mul_small(oc, xz) - sy,
            m21: mul_small(oc, yz) + sx,
            m22: mul_small(oc, zz) + c,
        };
        let lim = ROT_LIMIT;
        if -lim <= rot.m00 && rot.m00 <= lim && -lim <= rot.m01 && rot.m01 <= lim && -lim
            <= rot.m02 && rot.m02 <= lim && -lim <= rot.m10 && rot.m10 <= lim && -lim <= rot.m11
            && rot.m11 <= lim && -lim <= rot.m12 && rot.m12 <= lim && -lim <= rot.m20 && rot.m20
            <= lim && -lim <= rot.m21 && rot.m21 <= lim && -lim <= rot.m22 && rot.m22 <= lim {
            Ok(Transform { rot, t: FxVec3 { x: 0, y: 0, z: 0 } })
        } else {
            Err(KinError::OutOfRange)
        }
    }
}

/// Largest deviation of the squared norm of an axis from one that is
/// still accepted as a unit axis: about 1e-6.
pub const AXIS_TOL: i64 = 0x10000000;

/// The axis has components within two units and a squared norm within
/// `AXIS_TOL` of one.
pub open spec fn axis_unit_ok(axis: FxVec3) -> bool {
    let n2 = fx_dot3_val(
        axis.x as int,
        axis.y as int,
        axis.z as int,
        axis.x as int,
        axis.y as int,
        axis.z as int,
    );
    &&& -2 * (FX_ONE as int) <= axis.x <= 2 * (FX_ONE as int)
    &&& -2 * (FX_ONE as int) <= axis.y <= 2 * (FX_ONE as int)
    &&& -2 * (FX_ONE as int) <= axis.z <= 2 * (FX_ONE as int)
    &&& fx_dot3_fits(
        axis.x as int,
        axis.y as int,
        axis.z as int,
        axis.x as int,
        axis.y as int,
        axis.z as int,
    )
    &&& FX_ONE - AXIS_TOL <= n2 <= FX_ONE + AXIS_TOL
}

/// Whether the vector is accepted as a unit rotation axis: components
/// within two units and a squared norm within tolerance of one.
pub fn axis_is_unit(axis: &FxVec3) -> (b: bool)
    ensures
        b == axis_unit_ok(*axis),
{
    let two: i64 = 2 * FX_ONE;
    if !(-two <= axis.x && axis.x <= two && -two <= axis.y && axis.y <= two && -two <= axis.z
        && axis.z <= two) {
        return false;
    }
    proof {
        lemma_fx_dot3_small(
            axis.x as int,
            axis.y as int,
            axis.z as int,
            axis.x as int,
            axis.y as int,
            axis.z as int,
            2 * FX_ONE as int,
        );
    }
    let n2 = match fx_dot3(axis.x, axis.y, axis.z, axis.x, axis.y, axis.z) {
        Some(v) => v,
        None => {
            proof {
                assert(false);
            }
            0
        },
    };
    FX_ONE - AXIS_TOL <= n2 && n2 <= FX_ONE + AXIS_TOL
}

/// A principal axis — one component exactly plus or minus one unit, the
/// others zero — is a unit axis.
pub proof fn lemma_principal_axis_unit(a: FxVec3)
    requires
        ((a.x == FX_ONE || a.x == -FX_ONE) && a.y == 0 && a.z == 0) || ((a.y == FX_ONE || a.y
            == -FX_ONE) && a.x == 0 && a.z == 0) || ((a.z == FX_ONE || a.z == -FX_ONE) && a.x == 0
            && a.y == 0),
    ensures
        axis_unit_ok(a),
{
    assert((FX_ONE as int) * (FX_ONE as int) == fxs() * (FX_ONE as int) && (-(FX_ONE as int)) * (-(
    FX_ONE as int)) == fxs() * (FX_ONE as int)) by (nonlinear_arith);
    lemma_div_multiples_vanish(FX_ONE as int, fxs());
}

/// Whether all twelve carriers of the transform lie within their bounds.
pub fn transform_in_range(t: &Transform) -> (b: bool)
    ensures
        b == transform_wf(*t),
{
    let lim = ROT_LIMIT;
    let tl = TR_LIMIT;
    -lim <= t.rot.m00 && t.rot.m00 <= lim && -lim <= t.rot.m01 && t.rot.m01 <= lim && -lim
        <= t.rot.m02 && t.rot.m02 <= lim && -lim <= t.rot.m10 && t.rot.m10 <= lim && -lim
        <= t.rot.m11 && t.rot.m11 <= lim && -lim <= t.rot.m12 && t.rot.m12 <= lim && -lim
        <= t.rot.m20 && t.rot.m20 <= lim && -lim <= t.rot.m21 && t.rot.m21 <= lim && -lim
        <= t.rot.m22 && t.rot.m22 <= lim && -tl <= t.t.x && t.t.x <= tl && -tl <= t.t.y && t.t.y
        <= tl && -tl <= t.t.z && t.t.z <= tl
}

/// The Rodrigues rotation matrix of a unit axis and an angle, entry by
/// entry over the uninterpreted sine and cosine, with each fixed-point
/// product rounded exactly as the implementation rounds it.
pub open spec fn sp_rodrigues(axis: FxVec3, angle: int) -> FxMat3 {
    let s = spec_sin(angle);
    let c = spec_cos(angle);
    let oc = FX_ONE as int - c;
    let ax = axis.x as int;
    let ay = axis.y as int;
    let az = axis.z as int;
    FxMat3 {
        m00: (fx_mul_val(oc, fx_mul_val(ax, ax)) + c) as i64,
        m01: (fx_mul_val(oc, fx_mul_val(ax, ay)) - fx_mul_val(s, az)) as i64,
        m02: (fx_mul_val(oc, fx_mul_val(ax, az)) + fx_mul_val(s, ay)) as i64,
        m10: (fx_mul_val(oc, fx_mul_val(ax, ay)) + fx_mul_val(s, az)) as i64,
        m11: (fx_mul_val(oc, fx_mul_val(ay, ay)) + c) as i64,
        m12: (fx_mul_val(oc, fx_mul_val(ay, az)) - fx_mul_val(s, ax)) as i64,
        m20: (fx_mul_val(oc, fx_mul_val(ax, az)) - fx_mul_val(s, ay)) as i64,
        m21: (fx_mul_val(oc, fx_mul_val(ay, az)) + fx_mul_val(s, ax)) as i64,
        m22: (fx_mul_val(oc, fx_mul_val(az, az)) + c) as i64,
    }
}

/// The trig values of the angle and all entries of the Rodrigues matrix
/// stay within their bounds.
pub open spec fn rodrigues_ok(axis: FxVec3, angle: int) -> bool {
    trig_in_range(angle) && mat_wf(sp_rodrigues(axis, angle))
}

/// Fixed-point product for small magnitudes: total, with usable bounds.
pub(crate) fn mul_small(a: i64, b: i64) -> (r: i64)
    requires
        -32 * (FX_ONE as int) <= a <= 32 * (FX_ONE as int),
        -32 * (FX_ONE as int) <= b <= 32 * (FX_ONE as int),
    ensures
        r == fx_mul_val(a as int, b as int),
        -1024 * (FX_ONE as int) - 1 <= r <= 1024 * (FX_ONE as int),
        (-4 * (FX_ONE as int) <= a <= 4 * (FX_ONE as int) && -4 * (FX_ONE as int) <= b <= 4 * (
        FX_ONE as int)) ==> -16 * (FX_ONE as int) - 1 <= r <= 16 * (FX_ONE as int),
{
    proof {
        lemma_fx_mul_val_bound(a as int, b as int, 0x20_0000_0000_0000, 0x20_0000_0000_0000);
        assert((0x20_0000_0000_0000int * 0x20_0000_0000_0000int) / fxs()
            == 0x400_0000_0000_0000int) by (nonlinear_arith);
        assert((0x4_0000_0000_0000int * 0x4_0000_0000_0000int) / fxs() == 0x10_0000_0000_0000int)
            by (nonlinear_arith);
        if -4 * (FX_ONE as int) <= a <= 4 * (FX_ONE as int) && -4 * (FX_ONE as int) <= b <= 4 * (
        FX_ONE as int) {
            lemma_fx_mul_val_bound(a as int, b as int, 0x4_0000_0000_0000, 0x4_0000_0000_0000);
        }
    }
    fx_mul(a, b)
}

/// Translation component i of the inverse: the negated dot product of
/// column i of the rotation with the translation.
pub open spec fn sp_inv_tr_entry(t: Transform, i: int) -> int {
    -fx_dot3_val(
        ent(t.rot, 0, i),
        ent(t.rot, 1, i),
        ent(t.rot, 2, i),
        vcomp(t.t, 0),
        vcomp(t.t, 1),
        vcomp(t.t, 2),
    )
}

/// All three translation components of the inverse stay within bounds.
pub open spec fn inverse_fits(t: Transform) -> bool {
    forall|i: int|
        0 <= i < 3 ==> tr_entry_ok(
            ent(t.rot, 0, i),
            ent(t.rot, 1, i),
            ent(t.rot, 2, i),
            vcomp(t.t, 0),
            vcomp(t.t, 1),
            vcomp(t.t, 2),
            0,
        )
}

/// The inverse transform, entry by entry.
pub open spec fn sp_inverse(t: Transform) -> Transform {
    Transform {
        rot: FxMat3 {
            m00: t.rot.m00,
            m01: t.rot.m10,
            m02: t.rot.m20,
            m10: t.rot.m01,
            m11: t.rot.m11,
            m12: t.rot.m21,
            m20: t.rot.m02,
            m21: t.rot.m12,
            m22: t.rot.m22,
        },
        t: FxVec3 {
            x: (sp_inv_tr_entry(t, 0)) as i64,
            y: (sp_inv_tr_entry(t, 1)) as i64,
            z: (sp_inv_tr_entry(t, 2)) as i64,
        },
    }
}

/// Component i of a transformed point.
pub open spec fn sp_apply_entry(t: Transform, p: FxVec3, i: int) -> int {
    fx_dot3_val(
        ent(t.rot, i, 0),
        ent(t.rot, i, 1),
        ent(t.rot, i, 2),
        vcomp(p, 0),
        vcomp(p, 1),
        vcomp(p, 2),
    ) + vcomp(t.t, i)
}

/// All three components of the transformed point stay within bounds.
pub open spec fn apply_fits(t: Transform, p: FxVec3) -> bool {
    forall|i: int|
        0 <= i < 3 ==> tr_entry_ok(
            ent(t.rot, i, 0),
            ent(t.rot, i, 1),
            ent(t.rot, i, 2),
            vcomp(p, 0),
            vcomp(p, 1),
            vcomp(p, 2),
            vcomp(t.t, i),
        )
}

/// The transformed point.
pub open spec fn sp_apply(t: Transform, p: FxVec3) -> FxVec3 {
    FxVec3 {
        x: (sp_apply_entry(t, p, 0)) as i64,
        y: (sp_apply_entry(t, p, 1)) as i64,
        z: (sp_apply_entry(t, p, 2)) as i64,
    }
}

/// Component i of a rotated vector: no translation term.
pub open spec fn sp_apply_vec_entry(t: Transform, v: FxVec3, i: int) -> int {
    fx_dot3_val(
        ent(t.rot, i, 0),
        ent(t.rot, i, 1),
        ent(t.rot, i, 2),
        vcomp(v, 0),
        vcomp(v, 1),
        vcomp(v, 2),
    )
}

/// All three components of the rotated vector stay within bounds.
pub open spec fn apply_vec_fits(t: Transform, v: FxVec3) -> bool {
    forall|i: int|
        0 <= i < 3 ==> tr_entry_ok(
            ent(t.rot, i, 0),
            ent(t.rot, i, 1),
            ent(t.rot, i, 2),
            vcomp(v, 0),
            vcomp(v, 1),
            vcomp(v, 2),
            0,
        )
}

/// The rotated vector.
pub open spec fn sp_apply_vec(t: Transform, v: FxVec3) -> FxVec3 {
    FxVec3 {
        x: (sp_apply_vec_entry(t, v, 0)) as i64,
        y: (sp_apply_vec_entry(t, v, 1)) as i64,
        z: (sp_apply_vec_entry(t, v, 2)) as i64,
    }
}

/// The identity is a left unit of composition: composing it before any
/// well-formed transform reproduces that transform exactly.
pub proof fn lemma_identity_left(t: Transform)
    requires
        transform_wf(t),
    ensures
        compose_fits(sp_identity(), t),
        sp_compose(sp_identity(), t) == t,
{
    let id = sp_identity();
    assert forall|i: int, j: int| 0 <= i < 3 && 0 <= j < 3 implies #[trigger] sp_rot_entry(
        id,
        t,
        i,
        j,
    ) == ent(t.rot, i, j) by {
        lemma_div_multiples_vanish(ent(t.rot, i, j), fxs());
        assert((FX_ONE as int) * ent(t.rot, i, j) == fxs() * ent(t.rot, i, j));
    }
    assert forall|i: int| 0 <= i < 3 implies sp_tr_entry(id, t, i) == vcomp(t.t, i) by {
        lemma_div_multiples_vanish(vcomp(t.t, i), fxs());
        assert((FX_ONE as int) * vcomp(t.t, i) == fxs() * vcomp(t.t, i));
    }
    assert forall|i: int| 0 <= i < 3 implies tr_entry_ok(
        ent(id.rot, i, 0),
        ent(id.rot, i, 1),
        ent(id.rot, i, 2),
        vcomp(t.t, 0),
        vcomp(t.t, 1),
        vcomp(t.t, 2),
        vcomp(id.t, i),
    ) by {
        lemma_div_multiples_vanish(vcomp(t.t, i), fxs());
        assert((FX_ONE as int) * vcomp(t.t, i) == fxs() * vcomp(t.t, i));
    }
    assert(sp_compose(id, t).rot == t.rot);
    assert(sp_compose(id, t).t == t.t);
}

/// The identity is a right unit of composition.
pub proof fn lemma_identity_right(t: Transform)
    requires
        transform_wf(t),
    ensures
        compose_fits(t, sp_identity()),
        sp_compose(t, sp_identity()) == t,
{
    let id = sp_identity();
    assert forall|i: int, j: int| 0 <= i < 3 && 0 <= j < 3 implies #[trigger] sp_rot_entry(
        t,
        id,
        i,
        j,
    ) == ent(t.rot, i, j) by {
        lemma_div_multiples_vanish(ent(t.rot, i, j), fxs());
        assert(ent(t.rot, i, j) * (FX_ONE as int) == fxs() * ent(t.rot, i, j)) by (nonlinear_arith);
    }
    assert forall|i: int| 0 <= i < 3 implies sp_tr_entry(t, id, i) == vcomp(t.t, i) by {
        vstd::arithmetic::div_mod::lemma_div_of0(fxs());
    }
    assert forall|i: int| 0 <= i < 3 implies tr_entry_ok(
        ent(t.rot, i, 0),
        ent(t.rot, i, 1),
        ent(t.rot, i, 2),
        vcomp(id.t, 0),
        vcomp(id.t, 1),
        vcomp(id.t, 2),
        vcomp(t.t, i),
    ) by {
        vstd::arithmetic::div_mod::lemma_div_of0(fxs());
    }
    assert(sp_compose(t, id).rot == t.rot);
    assert(sp_compose(t, id).t == t.t);
}

} // verus!

//! Validated constructors for rigid transforms.
//!
//! A rotation handed in from outside is checked for orthonormality and
//! rejected with a typed error when it fails; it is never silently
//! corrected.

use crate::fx::{fx_dot3, fx_dot3_val, lemma_fx_dot3_small, FX_ONE};
use crate::transform::{transform_wf, vec_wf, FxMat3, FxVec3, Transform};
use crate::KinError;
use vstd::prelude::*;

verus! {

/// Largest deviation accepted when validating a rotation matrix or a
/// homogeneous row: about 1e-6 in value terms.
pub const ORTHO_TOL: i64 = 0x10000000;

/// Two fixed-point units; every entry of a rotation matrix must be well
/// inside this bound before the dot products are formed.
pub const ENTRY_LIMIT: i64 = 2 * FX_ONE;

/// All nine entries within `ENTRY_LIMIT`.
pub open spec fn entries_small(m: FxMat3) -> bool {
    &&& -ENTRY_LIMIT <= m.m00 <= ENTRY_LIMIT
    &&& -ENTRY_LIMIT <= m.m01 <= ENTRY_LIMIT
    &&& -ENTRY_LIMIT <= m.m02 <= ENTRY_LIMIT
    &&& -ENTRY_LIMIT <= m.m10 <= ENTRY_LIMIT
    &&& -ENTRY_LIMIT <= m.m11 <= ENTRY_LIMIT
    &&& -ENTRY_LIMIT <= m.m12 <= ENTRY_LIMIT
    &&& -ENTRY_LIMIT <= m.m20 <= ENTRY_LIMIT
    &&& -ENTRY_LIMIT <= m.m21 <= ENTRY_LIMIT
    &&& -ENTRY_LIMIT <= m.m22 <= ENTRY_LIMIT
}

/// A row dot product of the matrix, in fixed point.
pub open spec fn sp_row_dot(m: FxMat3, i: int, j: int) -> int {
    fx_dot3_val(
        crate::transform::ent(m, i, 0),
        crate::transform::ent(m, i, 1),
        crate::transform::ent(m, i, 2),
        crate::transform::ent(m, j, 0),
        crate::transform::ent(m, j, 1),
        crate::transform::ent(m, j, 2),
    )
}

/// Orthonormal within tolerance: rows have unit norm and are mutually
/// orthogonal, all judged in exact fixed-point arithmetic.
pub open spec fn sp_orthonormal(m: FxMat3) -> bool {
    &&& entries_small(m)
    &&& FX_ONE - ORTHO_TOL <= sp_row_dot(m, 0, 0) <= FX_ONE + ORTHO_TOL
    &&& FX_ONE - ORTHO_TOL <= sp_row_dot(m, 1, 1) <= FX_ONE + ORTHO_TOL
    &&& FX_ONE - ORTHO_TOL <= sp_row_dot(m, 2, 2) <= FX_ONE + ORTHO_TOL
    &&& -ORTHO_TOL <= sp_row_dot(m, 0, 1) <= ORTHO_TOL
    &&& -ORTHO_TOL <= sp_row_dot(m, 0, 2) <= ORTHO_TOL
    &&& -ORTHO_TOL <= sp_row_dot(m, 1, 2) <= ORTHO_TOL
}

/// One row dot product, executable.  The entry bound makes the dot
/// product fit, so the checked form cannot actually fail.
fn row_dot(a1: i64, a2: i64, a3: i64, b1: i64, b2: i64, b3: i64) -> (r: i64)
    requires
        -ENTRY_LIMIT <= a1 <= ENTRY_LIMIT,
        -ENTRY_LIMIT <= a2 <= ENTRY_LIMIT,
        -ENTRY_LIMIT <= a3 <= ENTRY_LIMIT,
        -ENTRY_LIMIT <= b1 <= ENTRY_LIMIT,
        -ENTRY_LIMIT <= b2 <= ENTRY_LIMIT,
        -ENTRY_LIMIT <= b3 <= ENTRY_LIMIT,
    ensures
        r == fx_dot3_val(a1 as int, a2 as int, a3 as int, b1 as int, b2 as int, b3 as int),
{
    proof {
        lemma_fx_dot3_small(
            a1 as int,
            a2 as int,
            a3 as int,
            b1 as int,
            b2 as int,
            b3 as int,
            ENTRY_LIMIT as int,
        );
    }
    match fx_dot3(a1, a2, a3, b1, b2, b3) {
        Some(v) => v,
        None => {
            proof {
                assert(false);
            }
            0
        },
    }
}

/// Whether the matrix is orthonormal within tolerance.
pub fn mat_orthonormal(m: &FxMat3) -> (b: bool)
    ensures
        b == sp_orthonormal(*m),
{
    let lim = ENTRY_LIMIT;
    if !(-lim <= m.m00 && m.m00 <= lim && -lim <= m.m01 && m.m01 <= lim && -lim <= m.m02 && m.m02
        <= lim && -lim <= m.m10 && m.m10 <= lim && -lim <= m.m11 && m.m11 <= lim && -lim <= m.m12
        && m.m12 <= lim && -lim <= m.m20 && m.m20 <= lim && -lim <= m.m21 && m.m21 <= lim && -lim
        <= m.m22 && m.m22 <= lim) {
        return false;
    }
    let d00 = row_dot(m.m00, m.m01, m.m02, m.m00, m.m01, m.m02);
    let d11 = row_dot(m.m10, m.m11, m.m12, m.m10, m.m11, m.m12);
    let d22 = row_dot(m.m20, m.m21, m.m22, m.m20, m.m21, m.m22);
    let d01 = row_dot(m.m00, m.m01, m.m02, m.m10, m.m11, m.m12);
    let d02 = row_dot(m.m00, m.m01, m.m02, m.m20, m.m21, m.m22);
    let d12 = row_dot(m.m10, m.m11, m.m12, m.m20, m.m21, m.m22);
    let lo = FX_ONE - ORTHO_TOL;
    let hi = FX_ONE + ORTHO_TOL;
    lo <= d00 && d00 <= hi && lo <= d11 && d11 <= hi && lo <= d22 && d22 <= hi && -ORTHO_TOL <= d01
        && d01 <= ORTHO_TOL && -ORTHO_TOL <= d02 && d02 <= ORTHO_TOL && -ORTHO_TOL <= d12 && d12
        <= ORTHO_TOL
}

/// Whether all three components lie within the translation bound.
pub fn vec_in_range(v: &FxVec3) -> (b: bool)
    ensures
        b == vec_wf(*v),
{
    let lim = crate::transform::TR_LIMIT;
    -lim <= v.x && v.x <= lim && -lim <= v.y && v.y <= lim && -lim <= v.z && v.z <= lim
}

/// Combine a validated rotation matrix and a translation vector into a
/// rigid transform.  A non-orthonormal rotation is rejected.
pub fn parts_to_iso(rot: FxMat3, trans: FxVec3) -> (r: Result<Transform, KinError>)
    ensures
        match r {
            Ok(t) => sp_orthonormal(rot) && vec_wf(trans) && t == (Transform { rot, t: trans })
                && transform_wf(t),
            Err(e) => (e == KinError::NotOrthonormal && !sp_orthonormal(rot)) || (e
                == KinError::OutOfRange && sp_orthonormal(rot) && !vec_wf(trans)),
        },
{
    if !mat_orthonormal(&rot) {
        return Err(KinError::NotOrthonormal);
    }
    if !vec_in_range(&trans) {
        return Err(KinError::OutOfRange);
    }
    Ok(Transform { rot, t: trans })
}

/// Split a transform into its rotation matrix and translation vector.
pub fn iso_to_parts(t: &Transform) -> (r: (FxMat3, FxVec3))
    ensures
        r.0 == t.rot,
        r.1 == t.t,
{
    (t.rot, t.t)
}

/// The rotation block of a row-major homogeneous 4x4 slice.
pub open spec fn sp_slice_rot(s: Seq<i64>) -> FxMat3 {
    FxMat3 {
        m00: s[0],
        m01: s[1],
        m02: s[2],
        m10: s[4],
        m11: s[5],
        m12: s[6],
        m20: s[8],
        m21: s[9],
        m22: s[10],
    }
}

/// The translation column of a row-major homogeneous 4x4 slice.
pub open spec fn sp_slice_tr(s: Seq<i64>) -> FxVec3 {
    FxVec3 { x: s[3], y: s[7], z: s[11] }
}

/// The last row of the homogeneous matrix is (0, 0, 0, 1) within
/// tolerance.
pub open spec fn sp_homogeneous_ok(s: Seq<i64>) -> bool {
    &&& -ORTHO_TOL <= s[12] <= ORTHO_TOL
    &&& -ORTHO_TOL <= s[13] <= ORTHO_TOL
    &&& -ORTHO_TOL <= s[14] <= ORTHO_TOL
    &&& FX_ONE - ORTHO_TOL <= s[15] <= FX_ONE + ORTHO_TOL
}

/// Read a rigid transform from sixteen row-major entries of a homogeneous
/// 4x4 matrix.  The slice length, the last row, the orthonormality of the
/// rotation block and the range of the translation are all validated.
pub fn row_slice_to_iso(slice: &[i64]) -> (r: Result<Transform, KinError>)
    ensures
        match r {
            Ok(t) => slice@.len() == 16 && sp_homogeneous_ok(slice@) && sp_orthonormal(
                sp_slice_rot(slice@),
            ) && vec_wf(sp_slice_tr(slice@)) && t == (Transform {
                rot: sp_slice_rot(slice@),
                t: sp_slice_tr(slice@),
            }) && transform_wf(t),
            Err(e) => {
                ||| (e == KinError::BadLength && slice@.len() != 16)
                ||| (e == KinError::NotHomogeneous && slice@.len() == 16 && !sp_homogeneous_ok(
                    slice@,
                ))
                ||| (e == KinError::NotOrthonormal && slice@.len() == 16 && sp_homogeneous_ok(
                    slice@,
                ) && !sp_orthonormal(sp_slice_rot(slice@)))
                ||| (e == KinError::OutOfRange && slice@.len() == 16 && sp_homogeneous_ok(slice@)
                    && sp_orthonormal(sp_slice_rot(slice@)) && !vec_wf(sp_slice_tr(slice@)))
            },
        },
{
    if slice.len() != 16 {
        return Err(KinError::BadLength);
    }
    let lo = FX_ONE - ORTHO_TOL;
    let hi = FX_ONE + ORTHO_TOL;
    if !(-ORTHO_TOL <= slice[12] && slice[12] <= ORTHO_TOL && -ORTHO_TOL <= slice[13] && slice[13]
        <= ORTHO_TOL && -ORTHO_TOL <= slice[14] && slice[14] <= ORTHO_TOL && lo <= slice[15]
        && slice[15] <= hi) {
        return Err(KinError::NotHomogeneous);
    }
    let rot = FxMat3 {
        m00: slice[0],
        m01: slice[1],
        m02: slice[2],
        m10: slice[4],
        m11: slice[5],
        m12: slice[6],
        m20: slice[8],
        m21: slice[9],
        m22: slice[10],
    };
    let trans = FxVec3 { x: slice[3], y: slice[7], z: slice[11] };
    if !mat_orthonormal(&rot) {
        return Err(KinError::NotOrthonormal);
    }
    if !vec_in_range(&trans) {
        return Err(KinError::OutOfRange);
    }
    Ok(Transform { rot, t: trans })
}

} // verus!

//! A geometric helper for CRX inverse kinematics: the circle of possible
//! J5 origins around a given flange frame.

use crate::fanuc::crx::{crx_wf, Crx};
use crate::fx::{
    fx_mul, fx_mul_val, fx_sin_cos, fxs, lemma_fx_mul_val_bound, spec_cos, spec_sin,
    trig_in_range,
};
use crate::helpers::vec_in_range;
use crate::transform::{apply_fits, sp_apply, transform_wf, vec_wf, FxVec3, Transform};
use crate::KinError;
use vstd::prelude::*;

verus! {

/// One five-hundredth of a full turn, in fixed-point radians.
pub const CIRCLE_STEP: i64 = 3537118876014;

/// How many points the circle is sampled at.
pub const CIRCLE_POINTS: usize = 500;

/// The sample angle of point `i`.
pub open spec fn sp_circle_angle(i: int) -> int {
    i * (CIRCLE_STEP as int)
}

/// Sample point `i` of the circle of radius `radius` at height `zoff`,
/// before the end frame is applied.
pub open spec fn sp_circle_pt(radius: int, zoff: int, i: int) -> FxVec3 {
    FxVec3 {
        x: fx_mul_val(radius, spec_cos(sp_circle_angle(i))) as i64,
        y: fx_mul_val(radius, spec_sin(sp_circle_angle(i))) as i64,
        z: zoff as i64,
    }
}

/// Whether sample point `i` can be formed and transformed within range.
pub open spec fn sp_o4_ok(radius: int, zoff: int, end_frame: Transform, i: int) -> bool {
    &&& trig_in_range(sp_circle_angle(i))
    &&& vec_wf(sp_circle_pt(radius, zoff, i))
    &&& apply_fits(end_frame, sp_circle_pt(radius, zoff, i))
}

/// Sample point `i` of the circle, carried into the end frame.
pub open spec fn sp_o4_point(radius: int, zoff: int, end_frame: Transform, i: int) -> FxVec3 {
    sp_apply(end_frame, sp_circle_pt(radius, zoff, i))
}

/// The J4-origin offset radius of this robot model.
pub open spec fn sp_o4_radius(c: Crx) -> int {
    -(c.p_vectors@[4].y as int)
}

/// The J4-origin axial offset of this robot model.
pub open spec fn sp_o4_zoff(c: Crx) -> int {
    -(c.p_vectors@[5].x as int)
}

impl Crx {
    /// The circle of possible J4 origins around the given flange frame:
    /// five hundred evenly spaced samples of a circle whose radius and
    /// axial offset come from the robot's link geometry, carried into
    /// the end frame.
    pub fn o4_circle(&self, end_frame: &Transform) -> (r: Result<Vec<FxVec3>, KinError>)
        requires
            crx_wf(*self),
            transform_wf(*end_frame),
        ensures
            match r {
                Ok(v) => {
                    &&& v@.len() == CIRCLE_POINTS
                    &&& forall|i: int|
                        0 <= i < CIRCLE_POINTS ==> #[trigger] sp_o4_ok(
                            sp_o4_radius(*self),
                            sp_o4_zoff(*self),
                            *end_frame,
                            i,
                        )
                    &&& forall|i: int|
                        0 <= i < CIRCLE_POINTS ==> #[trigger] v@[i] == sp_o4_point(
                            sp_o4_radius(*self),
                            sp_o4_zoff(*self),
                            *end_frame,
                            i,
                        )
                },
                Err(e) => e == KinError::OutOfRange && exists|i: int|
                    0 <= i < CIRCLE_POINTS && !(#[trigger] sp_o4_ok(
                        sp_o4_radius(*self),
                        sp_o4_zoff(*self),
                        *end_frame,
                        i,
                    )),
            },
    {
        let radius = -self.p_vectors[4].y;
        let zoff = -self.p_vectors[5].x;
        let ghost rad_i = sp_o4_radius(*self);
        let ghost z_i = sp_o4_zoff(*self);
        let mut out: Vec<FxVec3> = Vec::new();
        let mut i: usize = 0;
        while i < CIRCLE_POINTS
            invariant
                crx_wf(*self),
                transform_wf(*end_frame),
                rad_i == sp_o4_radius(*self),
                z_i == sp_o4_zoff(*self),
                radius as int == rad_i,
                zoff as int == z_i,
                -0x1000_0000_0000_0000 <= radius <= 0x1000_0000_0000_0000,
                -0x1000_0000_0000_0000 <= zoff <= 0x1000_0000_0000_0000,
                0 <= i <= CIRCLE_POINTS,
                out@.len() == i,
                forall|k: int| 0 <= k < i ==> #[trigger] sp_o4_ok(rad_i, z_i, *end_frame, k),
                forall|k: int|
                    0 <= k < i ==> #[trigger] out@[k] == sp_o4_point(rad_i, z_i, *end_frame, k),
            decreases CIRCLE_POINTS - i,
        {
            proof {
                assert(0 <= (i as int) * (CIRCLE_STEP as int) <= 1768559438007000000int)
                    by (nonlinear_arith)
                    requires
                        0 <= i < 500,
                        (CIRCLE_STEP as int) == 3537118876014int,
                ;
            }
            let ang = (i as i64) * CIRCLE_STEP;
            let (s, c) = match fx_sin_cos(ang) {
                Ok(p) => p,
                Err(_) => {
                    proof {
                        assert(!sp_o4_ok(sp_o4_radius(*self), sp_o4_zoff(*self), *end_frame,
                        i as int));
                        assert(exists|k: int|
                            0 <= k < CIRCLE_POINTS && !(#[trigger] sp_o4_ok(
                                sp_o4_radius(*self),
                                sp_o4_zoff(*self),
                                *end_frame,
                                k,
                            )));
                    }
                    return Err(KinError::OutOfRange);
                },
            };
            proof {
                lemma_fx_mul_val_bound(
                    radius as int,
                    c as int,
                    0x1000_0000_0000_0000,
                    0x2_0000_0000_0000,
                );
                lemma_fx_mul_val_bound(
                    radius as int,
                    s as int,
                    0x1000_0000_0000_0000,
                    0x2_0000_0000_0000,
                );
                assert((0x1000_0000_0000_0000int * 0x2_0000_0000_0000int) / fxs()
                    == 0x2000_0000_0000_0000int) by (nonlinear_arith);
            }
            let px = fx_mul(radius, c);
            let py = fx_mul(radius, s);
            let pt = FxVec3 { x: px, y: py, z: zoff };
            if !vec_in_range(&pt) {
                proof {
                    assert(pt == sp_circle_pt(rad_i, z_i, i as int));
                    assert(!sp_o4_ok(sp_o4_radius(*self), sp_o4_zoff(*self), *end_frame,
                    i as int));
                    assert(exists|k: int|
                        0 <= k < CIRCLE_POINTS && !(#[trigger] sp_o4_ok(
                            sp_o4_radius(*self),
                            sp_o4_zoff(*self),
                            *end_frame,
                            k,
                        )));
                }
                return Err(KinError::OutOfRange);
            }
            let q = match end_frame.apply(&pt) {
                Ok(q) => q,
                Err(_) => {
                    proof {
                        assert(!sp_o4_ok(sp_o4_radius(*self), sp_o4_zoff(*self), *end_frame,
                        i as int));
                        assert(exists|k: int|
                            0 <= k < CIRCLE_POINTS && !(#[trigger] sp_o4_ok(
                                sp_o4_radius(*self),
                                sp_o4_zoff(*self),
                                *end_frame,
                                k,
                            )));
                    }
                    return Err(KinError::OutOfRange);
                },
            };
            out.push(q);
            i = i + 1;
        }
        Ok(out)
    }
}

} // verus!

//! Q16.48 fixed-point scalars.
//!
//! Every geometric quantity in this crate (millimetres, radians, degrees,
//! direction cosines) is carried as an `i64` holding the real value scaled
//! by `2^48`.  All arithmetic then has an exact integer specification:
//! a product is the mathematical product floor-divided by the scale.
//!
//! Trigonometric values come from the `cordic` crate through trusted
//! wrappers at the bottom of this file; everything else is verified.

use vstd::arithmetic::div_mod::{
    lemma_fundamental_div_mod, lemma_fundamental_div_mod_converse,
};
use vstd::prelude::*;

verus! {

/// The fixed-point unit: 2^48.
pub const FX_ONE: i64 = 0x1_0000_0000_0000;

/// pi/180 scaled by 2^48, rounded to nearest: the radians in one degree.
pub const FX_DEG_TO_RAD: i64 = 4912665105575;

/// 180/pi scaled by 2^48: the degrees in one radian.  The value is chosen
/// as the nearest integer to 2^96 / FX_DEG_TO_RAD, which agrees with
/// 180/pi * 2^48 to thirteen significant digits and makes the product
/// FX_DEG_TO_RAD * FX_RAD_TO_DEG differ from 2^96 by less than 2^40,
/// which keeps the degree -> radian -> degree round trip tight.
pub const FX_RAD_TO_DEG: i64 = 16127328204064731;

/// Largest magnitude accepted for an angle in fixed-point degrees: 4096 deg.
pub const MAX_ANGLE_DEG: i64 = 0x1000_0000_0000_0000;

/// Largest magnitude accepted for an angle in fixed-point radians: 256 rad.
pub const MAX_ANGLE_RAD: i64 = 0x100_0000_0000_0000;

/// The scale as a spec-level integer.
pub open spec fn fxs() -> int {
    FX_ONE as int
}

/// Exact meaning of a fixed-point product: the integer product of the two
/// carriers, floor-divided by the scale.  (`/` on `int` is Euclidean
/// division, which for the positive scale is the floor.)
pub open spec fn fx_mul_val(a: int, b: int) -> int {
    (a * b) / fxs()
}

/// Exact meaning of a fixed-point quotient: `a / b` as reals is
/// `a * 2^48 / b` on the carriers, floored.
pub open spec fn fx_div_val(a: int, b: int) -> int {
    (a * fxs()) / b
}

/// The fixed-point product of two `i64` carriers stays inside `i64`.
pub open spec fn fx_mul_fits(a: int, b: int) -> bool {
    i64::MIN <= fx_mul_val(a, b) <= i64::MAX
}

proof fn lemma_i64_product_in_i128(a: int, b: int)
    by (nonlinear_arith)
    requires
        i64::MIN <= a <= i64::MAX,
        i64::MIN <= b <= i64::MAX,
    ensures
        i128::MIN <= a * b <= i128::MAX,
{
}

/// Floor-divide an exact `i128` product by the scale.
fn fx_scale_down(p: i128) -> (r: i128)
    ensures
        r == p as int / fxs(),
{
    let q = p.checked_div_euclid(FX_ONE as i128);
    proof {
        assert(p as int / fxs() <= i128::MAX && p as int / fxs() >= i128::MIN) by {
            assert(fxs() > 0);
            lemma_fundamental_div_mod(p as int, fxs());
        };
    }
    q.unwrap_or(0)
}

/// Fixed-point multiplication, exact to its floor specification.
pub fn fx_mul(a: i64, b: i64) -> (r: i64)
    requires
        fx_mul_fits(a as int, b as int),
    ensures
        r == fx_mul_val(a as int, b as int),
{
    proof {
        lemma_i64_product_in_i128(a as int, b as int);
    }
    let p: i128 = (a as i128) * (b as i128);
    let q = fx_scale_down(p);
    q as i64
}

/// Fixed-point division, exact to its floor specification.  The quotient
/// magnitude is kept inside `i64` by the requirement `|a| <= |b|`.
pub fn fx_div(a: i64, b: i64) -> (r: i64)
    requires
        b != 0,
        -(b as int) <= a as int <= b as int || b as int <= a as int <= -(b as int),
    ensures
        r == fx_div_val(a as int, b as int),
        -(FX_ONE as int) <= r <= FX_ONE as int,
{
    proof {
        lemma_i64_product_in_i128(a as int, FX_ONE as int);
        lemma_fx_div_val_unit_range(a as int, b as int);
    }
    let p: i128 = (a as i128) * (FX_ONE as i128);
    let q = p.checked_div_euclid(b as i128);
    q.unwrap_or(0) as i64
}

/// `|a| <= |b|` keeps the fixed-point quotient within one unit.
proof fn lemma_fx_div_val_unit_range(a: int, b: int)
    by (nonlinear_arith)
    requires
        b != 0,
        -b <= a <= b || b <= a <= -b,
    ensures
        -fxs() <= fx_div_val(a, b) <= fxs(),
{
    lemma_fundamental_div_mod(a * fxs(), b);
}

/// Floor division by the scale maps `[-m, m]` into `[-m/S - 1, m/S]`.
pub proof fn lemma_fx_scale_range(p: int, m: int)
    requires
        0 <= m,
        -m <= p <= m,
    ensures
        -(m / fxs()) - 1 <= p / fxs() <= m / fxs(),
{
    vstd::arithmetic::div_mod::lemma_div_is_ordered(p, m, fxs());
    vstd::arithmetic::div_mod::lemma_div_is_ordered(-m, p, fxs());
    lemma_fundamental_div_mod(m, fxs());
    lemma_fundamental_div_mod(-m, fxs());
}

/// A product of values bounded by `ma` and `mb` lands, after scaling,
/// inside `[-(ma*mb)/S - 1, (ma*mb)/S]`.
pub proof fn lemma_fx_mul_val_bound(a: int, b: int, ma: int, mb: int)
    requires
        0 <= ma,
        0 <= mb,
        -ma <= a <= ma,
        -mb <= b <= mb,
    ensures
        -((ma * mb) / fxs()) - 1 <= fx_mul_val(a, b) <= (ma * mb) / fxs(),
{
    assert(-(ma * mb) <= a * b <= ma * mb) by (nonlinear_arith)
        requires
            0 <= ma,
            0 <= mb,
            -ma <= a <= ma,
            -mb <= b <= mb,
    ;
    lemma_fx_scale_range(a * b, ma * mb);
}

/// Largest argument magnitude accepted by the three-term dot product.
pub const FX_ARG_LIMIT: i64 = 0x4000_0000_0000_0000;

/// Exact meaning of a fixed-point three-term dot product: the sum of the
/// integer products, floor-divided by the scale once.
pub open spec fn fx_dot3_val(a1: int, a2: int, a3: int, b1: int, b2: int, b3: int) -> int {
    (a1 * b1 + a2 * b2 + a3 * b3) / fxs()
}

/// The dot product of the given carriers stays inside `i64`.
pub open spec fn fx_dot3_fits(a1: int, a2: int, a3: int, b1: int, b2: int, b3: int) -> bool {
    i64::MIN <= fx_dot3_val(a1, a2, a3, b1, b2, b3) <= i64::MAX
}

/// Three-term fixed-point dot product with a single final rounding.
/// Returns `None` exactly when the result leaves the `i64` range.
pub fn fx_dot3(a1: i64, a2: i64, a3: i64, b1: i64, b2: i64, b3: i64) -> (r: Option<i64>)
    requires
        -FX_ARG_LIMIT <= a1 <= FX_ARG_LIMIT,
        -FX_ARG_LIMIT <= a2 <= FX_ARG_LIMIT,
        -FX_ARG_LIMIT <= a3 <= FX_ARG_LIMIT,
        -FX_ARG_LIMIT <= b1 <= FX_ARG_LIMIT,
        -FX_ARG_LIMIT <= b2 <= FX_ARG_LIMIT,
        -FX_ARG_LIMIT <= b3 <= FX_ARG_LIMIT,
    ensures
        match r {
            Some(v) => v == fx_dot3_val(a1 as int, a2 as int, a3 as int, b1 as int, b2 as int,
                b3 as int),
            None => !fx_dot3_fits(a1 as int, a2 as int, a3 as int, b1 as int, b2 as int,
                b3 as int),
        },
        r is Some <==> fx_dot3_fits(a1 as int, a2 as int, a3 as int, b1 as int, b2 as int,
            b3 as int),
{
    proof {
        lemma_bounded_product(a1 as int, b1 as int);
        lemma_bounded_product(a2 as int, b2 as int);
        lemma_bounded_product(a3 as int, b3 as int);
    }
    let p: i128 = (a1 as i128) * (b1 as i128) + (a2 as i128) * (b2 as i128) + (a3 as i128) * (
    b3 as i128);
    let q = fx_scale_down(p);
    if q >= i64::MIN as i128 && q <= i64::MAX as i128 {
        Some(q as i64)
    } else {
        None
    }
}

/// With all six arguments bounded by `m`, the three-term dot product fits
/// `i64` and is itself bounded by `3*m*m` scaled down.
pub proof fn lemma_fx_dot3_small(a1: int, a2: int, a3: int, b1: int, b2: int, b3: int, m: int)
    requires
        0 <= m <= 0x40_0000_0000_0000,
        -m <= a1 <= m,
        -m <= a2 <= m,
        -m <= a3 <= m,
        -m <= b1 <= m,
        -m <= b2 <= m,
        -m <= b3 <= m,
    ensures
        fx_dot3_fits(a1, a2, a3, b1, b2, b3),
        -((3 * m * m) / fxs()) - 1 <= fx_dot3_val(a1, a2, a3, b1, b2, b3) <= (3 * m * m) / fxs(),
{
    assert(-(m * m) <= a1 * b1 <= m * m && -(m * m) <= a2 * b2 <= m * m && -(m * m) <= a3 * b3
        <= m * m) by (nonlinear_arith)
        requires
            0 <= m,
            -m <= a1 <= m,
            -m <= a2 <= m,
            -m <= a3 <= m,
            -m <= b1 <= m,
            -m <= b2 <= m,
            -m <= b3 <= m,
    ;
    assert(3 * m * m <= 0x3000_0000_0000_0000_0000_0000_0000int && 3 * m * m == 3 * (m * m) && 0
        <= 3 * m * m) by (nonlinear_arith)
        requires
            0 <= m <= 0x40_0000_0000_0000,
    ;
    lemma_fx_scale_range(a1 * b1 + a2 * b2 + a3 * b3, 3 * m * m);
    vstd::arithmetic::div_mod::lemma_div_is_ordered(
        3 * m * m,
        0x3000_0000_0000_0000_0000_0000_0000int,
        fxs(),
    );
}

proof fn lemma_bounded_product(a: int, b: int)
    by (nonlinear_arith)
    requires
        -FX_ARG_LIMIT <= a <= FX_ARG_LIMIT,
        -FX_ARG_LIMIT <= b <= FX_ARG_LIMIT,
    ensures
        -(FX_ARG_LIMIT as int * FX_ARG_LIMIT as int) <= a * b <= FX_ARG_LIMIT as int
            * FX_ARG_LIMIT as int,
{
}

/// Degrees to radians.  Total: the product always shrinks the carrier.
pub fn deg_to_rad(x: i64) -> (r: i64)
    ensures
        r == fx_mul_val(x as int, FX_DEG_TO_RAD as int),
        -0x400_0000_0000_0000 <= r <= 0x400_0000_0000_0000,
        (-MAX_ANGLE_DEG <= x <= MAX_ANGLE_DEG) ==> (-MAX_ANGLE_RAD / 2 <= r <= MAX_ANGLE_RAD
            / 2),
{
    proof {
        lemma_fx_mul_val_bound(x as int, FX_DEG_TO_RAD as int, 0x8000_0000_0000_0000,
            FX_DEG_TO_RAD as int);
        if -MAX_ANGLE_DEG <= x <= MAX_ANGLE_DEG {
            lemma_fx_mul_val_bound(x as int, FX_DEG_TO_RAD as int, MAX_ANGLE_DEG as int,
                FX_DEG_TO_RAD as int);
        }
    }
    fx_mul(x, FX_DEG_TO_RAD)
}

/// Radians to degrees.  The bound on the argument keeps the product,
/// which grows the carrier by a factor of about 57.3, inside `i64`.
pub fn rad_to_deg(y: i64) -> (r: i64)
    requires
        -MAX_ANGLE_RAD <= y <= MAX_ANGLE_RAD,
    ensures
        r == fx_mul_val(y as int, FX_RAD_TO_DEG as int),
        -0x3950_0000_0000_0000 <= r <= 0x3950_0000_0000_0000,
{
    proof {
        lemma_fx_mul_val_bound(y as int, FX_RAD_TO_DEG as int, 0x100_0000_0000_0000,
            FX_RAD_TO_DEG as int);
        assert((0x100_0000_0000_0000int * 16127328204064731int) / fxs()
            == 4128596020240571136int) by (nonlinear_arith);
    }
    fx_mul(y, FX_RAD_TO_DEG)
}

/// One degree -> radian -> degree round trip moves a carrier by at most
/// 70 units, which is under 3e-13 degrees.
pub proof fn lemma_deg_rad_round_trip(x: int)
    requires
        -MAX_ANGLE_DEG <= x <= MAX_ANGLE_DEG,
    ensures
        -70 <= fx_mul_val(fx_mul_val(x, FX_DEG_TO_RAD as int), FX_RAD_TO_DEG as int) - x <= 70,
{
    let s = fxs();
    let c1 = FX_DEG_TO_RAD as int;
    let c2 = FX_RAD_TO_DEG as int;
    let y = fx_mul_val(x, c1);
    let z = fx_mul_val(y, c2);
    lemma_fundamental_div_mod(x * c1, s);
    let r1 = (x * c1) % s;
    lemma_fundamental_div_mod(y * c2, s);
    let r2 = (y * c2) % s;
    assert(s * y == x * c1 - r1);
    assert(s * z == y * c2 - r2);
    assert(s * (s * z) == (x * c1 - r1) * c2 - s * r2) by (nonlinear_arith)
        requires
            s * y == x * c1 - r1,
            s * z == y * c2 - r2,
    ;
    assert((x * c1 - r1) * c2 == x * (c1 * c2) - r1 * c2) by (nonlinear_arith);
    assert(c1 * c2 - s * s == -731294975011);
    assert(s * (s * z) == x * (s * s) + x * (-731294975011) - r1 * c2 - s * r2)
        by (nonlinear_arith)
        requires
            s * (s * z) == x * (c1 * c2) - r1 * c2 - s * r2,
            c1 * c2 == s * s + -731294975011,
    ;
    assert(s * (s * (z - x)) == x * (-731294975011) - r1 * c2 - s * r2) by (nonlinear_arith)
        requires
            s * (s * z) == x * (s * s) + x * (-731294975011) - r1 * c2 - s * r2,
    ;
}

/// Floor integer square root: `r` is the floor square root of `n`.
pub open spec fn is_floor_sqrt(n: int, r: int) -> bool {
    0 <= r && r * r <= n < (r + 1) * (r + 1)
}

/// The floor square root of a non-negative integer.
pub open spec fn floor_sqrt(n: int) -> int {
    choose|r: int| is_floor_sqrt(n, r)
}

/// Floor square roots are unique.
pub proof fn lemma_floor_sqrt_unique(n: int, r1: int, r2: int)
    by (nonlinear_arith)
    requires
        is_floor_sqrt(n, r1),
        is_floor_sqrt(n, r2),
    ensures
        r1 == r2,
{
}

/// Binary-search floor square root on `u128`.
fn isqrt_u128(n: u128) -> (r: u128)
    ensures
        is_floor_sqrt(n as int, r as int),
        r < 0x1_0000_0000_0000_0000,
{
    let mut lo: u128 = 0;
    let mut hi: u128 = 0x1_0000_0000_0000_0000;
    while lo + 1 < hi
        invariant
            lo < hi <= 0x1_0000_0000_0000_0000,
            (lo as int) * (lo as int) <= n as int,
            (n as int) < (hi as int) * (hi as int),
        decreases hi - lo,
    {
        let mid = lo + (hi - lo) / 2;
        proof {
            assert((mid as int) * (mid as int) < 0x1_0000_0000_0000_0000_0000_0000_0000_0000int)
                by (nonlinear_arith)
                requires
                    0 <= mid < 0x1_0000_0000_0000_0000u128,
            ;
        }
        if mid * mid <= n {
            lo = mid;
        } else {
            hi = mid;
        }
    }
    lo
}

/// Fixed-point square root: the result is the floor square root of the
/// argument in value terms, carried exactly as `floor(sqrt(v * 2^48))`.
pub fn fx_sqrt(v: i64) -> (r: i64)
    requires
        v >= 0,
    ensures
        r >= 0,
        r as int == floor_sqrt(v as int * fxs()),
        is_floor_sqrt(v as int * fxs(), r as int),
{
    proof {
        assert((v as int) * (FX_ONE as int) < 0x8000_0000_0000_0000_0000_0000_0000int)
            by (nonlinear_arith)
            requires
                0 <= v <= i64::MAX,
        ;
    }
    let n: u128 = (v as u128) * (FX_ONE as u128);
    let root = isqrt_u128(n);
    proof {
        assert(root as int <= 0x7fff_ffff_ffff_ffffint) by (nonlinear_arith)
            requires
                0 <= root,
                (root as int) * (root as int) <= n as int,
                (n as int) < 0x8000_0000_0000_0000_0000_0000_0000int,
        ;
        lemma_floor_sqrt_unique(n as int, root as int, floor_sqrt(n as int));
    }
    root as i64
}

/// Exact halving toward zero.
pub open spec fn sp_half(d: int) -> int {
    if d >= 0 {
        d / 2
    } else {
        -((-d) / 2)
    }
}

/// Halve a carrier, rounding toward zero.
pub fn fx_half(d: i64) -> (r: i64)
    requires
        i64::MIN < d,
    ensures
        r == sp_half(d as int),
{
    if d >= 0 {
        ((d as u64) / 2) as i64
    } else {
        let m = ((-d) as u64) / 2;
        -(m as i64)
    }
}

/// pi scaled by 2^48, rounded to nearest.
pub const FX_PI: i64 = 884279719003555;

/// pi/2 scaled by 2^48, rounded to nearest.
pub const FX_HALF_PI: i64 = 442139859501778;

/// The sine of an angle in fixed-point radians, as computed by the CORDIC
/// rotation of the `cordic` crate.  Uninterpreted: contracts above it only
/// pass the value along.
pub uninterp spec fn spec_sin(a: int) -> int;

/// The cosine of an angle in fixed-point radians, as computed by the
/// CORDIC rotation of the `cordic` crate.
pub uninterp spec fn spec_cos(a: int) -> int;

/// The arc tangent of a fixed-point value in [-1, 1], in fixed-point
/// radians, as computed by the CORDIC vectoring of the `cordic` crate.
pub uninterp spec fn spec_atan(v: int) -> int;

/// Relies on cordic::sin for `fixed::types::I16F48`: the result is a pure
/// function of the argument bits.  The bound on the argument keeps the
/// crate's internal range reduction, which walks to the target in steps
/// of pi, far from the edges of the carrier type.
#[verifier::external_body]
fn cordic_sin(a: i64) -> (r: i64)
    requires
        -MAX_ANGLE_RAD <= a <= MAX_ANGLE_RAD,
    ensures
        r == spec_sin(a as int),
{
    cordic::sin(fixed::types::I16F48::from_bits(a)).to_bits()
}

/// Relies on cordic::cos for `fixed::types::I16F48`: the result is a pure
/// function of the argument bits.  Same domain as the sine wrapper.
#[verifier::external_body]
fn cordic_cos(a: i64) -> (r: i64)
    requires
        -MAX_ANGLE_RAD <= a <= MAX_ANGLE_RAD,
    ensures
        r == spec_cos(a as int),
{
    cordic::cos(fixed::types::I16F48::from_bits(a)).to_bits()
}

/// Relies on cordic::atan for `fixed::types::I16F48`: the result is a pure
/// function of the argument bits.  The result bound holds because the
/// CORDIC vectoring accumulates one entry of the crate's arc-tangent
/// table per fractional bit, each entry a `U0F64` below one, so 48
/// iterations keep the magnitude under 48.
#[verifier::external_body]
fn cordic_atan(v: i64) -> (r: i64)
    requires
        -FX_ONE <= v <= FX_ONE,
    ensures
        r == spec_atan(v as int),
        -48 * (FX_ONE as int) <= r <= 48 * (FX_ONE as int),
{
    cordic::atan(fixed::types::I16F48::from_bits(v)).to_bits()
}

/// Bound within which both trig values of an angle must fall to be usable
/// as direction cosines: two units.  True CORDIC outputs stay within one
/// unit and change of the rounding error; the bound is re-checked at run
/// time wherever it matters, so nothing rests on it being tight.
pub open spec fn trig_in_range(a: int) -> bool {
    &&& -2 * (FX_ONE as int) <= spec_sin(a) <= 2 * (FX_ONE as int)
    &&& -2 * (FX_ONE as int) <= spec_cos(a) <= 2 * (FX_ONE as int)
}

/// The sine and cosine of an angle, checked at run time to lie within
/// two units, so that later products cannot overflow.
pub fn fx_sin_cos(a: i64) -> (r: Result<(i64, i64), crate::KinError>)
    requires
        -MAX_ANGLE_RAD <= a <= MAX_ANGLE_RAD,
    ensures
        match r {
            Ok(p) => p.0 == spec_sin(a as int) && p.1 == spec_cos(a as int) && trig_in_range(
                a as int),
            Err(e) => e == crate::KinError::OutOfRange && !trig_in_range(a as int),
        },
{
    let s = cordic_sin(a);
    let c = cordic_cos(a);
    let two: i64 = 2 * FX_ONE;
    if -two <= s && s <= two && -two <= c && c <= two {
        Ok((s, c))
    } else {
        Err(crate::KinError::OutOfRange)
    }
}

/// The quadrant-corrected arc tangent `atan2(y, x)`, defined over the
/// uninterpreted arc tangent by the usual shallow/steep case split.
/// Both arguments zero gives zero.
pub open spec fn spec_atan2(y: int, x: int) -> int {
    let ya = if y < 0 { -y } else { y };
    let xa = if x < 0 { -x } else { x };
    if ya == 0 && xa == 0 {
        0
    } else if ya <= xa {
        let base = spec_atan(fx_div_val(y, x));
        if x > 0 {
            base
        } else if y >= 0 {
            base + FX_PI as int
        } else {
            base - FX_PI as int
        }
    } else {
        let base = spec_atan(fx_div_val(x, y));
        if y > 0 {
            FX_HALF_PI as int - base
        } else {
            -(FX_HALF_PI as int) - base
        }
    }
}

/// Quadrant-corrected arc tangent.  The argument bound rules out negation
/// overflow; the result stays within 52 fixed-point units (about 52 rad),
/// so a later conversion to degrees cannot overflow.
pub fn fx_atan2(y: i64, x: i64) -> (r: i64)
    requires
        -FX_ARG_LIMIT <= y <= FX_ARG_LIMIT,
        -FX_ARG_LIMIT <= x <= FX_ARG_LIMIT,
    ensures
        r == spec_atan2(y as int, x as int),
        -52 * (FX_ONE as int) <= r <= 52 * (FX_ONE as int),
{
    let ya = if y < 0 { -y } else { y };
    let xa = if x < 0 { -x } else { x };
    if ya == 0 && xa == 0 {
        0
    } else if ya <= xa {
        let base = cordic_atan(fx_div(y, x));
        if x > 0 {
            base
        } else if y >= 0 {
            base + FX_PI
        } else {
            base - FX_PI
        }
    } else {
        let base = cordic_atan(fx_div(x, y));
        if y > 0 {
            FX_HALF_PI - base
        } else {
            -FX_HALF_PI - base
        }
    }
}

} // verus!


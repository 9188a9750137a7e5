//! Verified kinematics for six-axis industrial robot arms.
//!
//! The library models rigid transforms, serial chains of rotational joints,
//! forward kinematics, the controller's pose and joint-angle conventions,
//! and the orchestration of an external analytic inverse-kinematics solver.
//!
//! All quantities are carried as 64-bit fixed-point numbers with 48
//! fractional bits, so every arithmetic step has an exact integer
//! specification.

use vstd::prelude::*;

pub mod chain;
pub mod fanuc;
pub mod fx;
pub mod helpers;
pub mod poses;
pub mod robot;
pub mod transform;

pub use poses::XyzWpr;
pub use robot::FanucLrMate200id;

verus! {

/// How an operation of this library can be refused.  Invalid input is
/// always reported through this type, never by panicking.
#[derive(Clone, Copy, Debug, PartialEq, Eq, Structural)]
pub enum KinError {
    /// A slice or vector did not have the expected number of elements.
    BadLength,
    /// A rotation matrix handed in was not orthonormal within tolerance.
    NotOrthonormal,
    /// A homogeneous 4x4 row-major matrix did not end in (0, 0, 0, 1).
    NotHomogeneous,
    /// A rotation axis was not of unit length within tolerance.
    NotUnitAxis,
    /// A value left the representable fixed-point range.
    OutOfRange,
}

} // verus!

//! Fixed-point vectors, points, colours and rotations.

use vstd::prelude::*;

verus! {

/// Number of fixed-point steps in one unit (one world unit, one degree, one
/// radian or full colour intensity 1.0).
pub const UNIT: i64 = 1_000_000;

/// A vector, point or colour with fixed-point components.
#[derive(Clone, Copy, Debug, PartialEq, Eq, Structural)]
pub struct Vec3 {
    pub x: i64,
    pub y: i64,
    pub z: i64,
}

/// A point in world space.
pub type Point3 = Vec3;

/// A linear RGB colour; `UNIT` is intensity 1.0 and lights may exceed it.
pub type Color = Vec3;

impl Vec3 {
    /// The vector with the given components.
    pub fn new(x: i64, y: i64, z: i64) -> (v: Vec3)
        ensures
            v == (Vec3 { x, y, z }),
    {
        Vec3 { x, y, z }
    }
}

/// A rotation applied to an object about its local origin.
#[derive(Clone, Copy, Debug, PartialEq, Eq, Structural)]
pub enum Rotation {
    /// About the x axis, by an angle in fixed-point degrees.
    AboutX { degrees: i64 },
    /// About the y axis, by an angle in fixed-point degrees.
    AboutY { degrees: i64 },
    /// Euler angles in fixed-point radians, applied in y, x, z order.
    EulerYxz { y: i64, x: i64, z: i64 },
}

} // verus!

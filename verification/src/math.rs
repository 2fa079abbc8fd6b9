//! Small integer vector types.
//!
//! Chunk positions and atlas sizes are integer data that the core reads and
//! computes with, so they are held as plain `i32` fields rather than as an
//! outside crate's vector types.  The host converts at the driver edge.

use vstd::prelude::*;

verus! {

/// A 2-component integer vector.
#[derive(Clone, Copy, Debug, PartialEq, Eq, Structural)]
pub struct IVec2 {
    pub x: i32,
    pub y: i32,
}

/// A 3-component integer vector.
#[derive(Clone, Copy, Debug, PartialEq, Eq, Structural)]
pub struct IVec3 {
    pub x: i32,
    pub y: i32,
    pub z: i32,
}

impl IVec3 {
    /// All components lie in `[-bound, bound)`.
    pub open spec fn in_bounds(self, bound: int) -> bool {
        &&& -bound <= self.x < bound
        &&& -bound <= self.y < bound
        &&& -bound <= self.z < bound
    }

    /// Multiply every component by a small non-negative factor.
    pub fn scale(self, factor: i32) -> (r: IVec3)
        requires
            0 <= factor,
            factor * self.x <= i32::MAX && i32::MIN <= factor * self.x,
            factor * self.y <= i32::MAX && i32::MIN <= factor * self.y,
            factor * self.z <= i32::MAX && i32::MIN <= factor * self.z,
        ensures
            r.x == factor * self.x,
            r.y == factor * self.y,
            r.z == factor * self.z,
    {
        IVec3 { x: factor * self.x, y: factor * self.y, z: factor * self.z }
    }
}

} // verus!

//! World-space vectors in fixed-point micro-units.

use vstd::prelude::*;

use crate::fixed::in_world_range;

verus! {

/// A 3-component world-space vector; each component is a fixed-point
/// micro-unit scalar.
#[derive(Clone, Copy, PartialEq, Eq, Structural, Debug)]
pub struct Vec3 {
    pub x: i64,
    pub y: i64,
    pub z: i64,
}

/// Every component lies within the saturating world bounds.
pub open spec fn in_world(v: Vec3) -> bool {
    in_world_range(v.x as int) && in_world_range(v.y as int) && in_world_range(v.z as int)
}

impl Vec3 {
    /// The origin.
    pub fn zero() -> (r: Vec3)
        ensures
            r == (Vec3 { x: 0i64, y: 0i64, z: 0i64 }),
    {
        Vec3 { x: 0, y: 0, z: 0 }
    }
}

} // verus!

//! Fixed-point scalars.
//!
//! Every scalar quantity of the simulation — world coordinates, radians,
//! seconds, speeds — is a signed 64-bit integer counting millionths of the
//! unit ("micro-units"). This keeps all of the frame arithmetic exact and
//! provable while the platform layer converts to and from its own
//! floating-point values at the boundary.

use vstd::prelude::*;

verus! {

/// Number of fixed-point steps per unit: one micro-unit is 1/1_000_000.
pub const SCALE: i64 = 1_000_000;

/// Largest coordinate (in micro-units) the world admits: one million world
/// units in every direction, far beyond the default spawn range. Positions
/// and angles saturate here instead of overflowing.
pub const COORD_LIMIT: i64 = 1_000_000_000_000;

/// `x` forced into `[lo, hi]`.
pub open spec fn clamp_int(x: int, lo: int, hi: int) -> int {
    if x < lo {
        lo
    } else if x > hi {
        hi
    } else {
        x
    }
}

/// `x` lies within the saturating world bounds.
pub open spec fn in_world_range(x: int) -> bool {
    -COORD_LIMIT <= x <= COORD_LIMIT
}

/// Saturating conversion of a wide intermediate value into `[lo, hi]`.
pub fn clamp_wide(x: i128, lo: i64, hi: i64) -> (r: i64)
    requires
        lo <= hi,
    ensures
        r == clamp_int(x as int, lo as int, hi as int),
{
    if x < lo as i128 {
        lo
    } else if x > hi as i128 {
        hi
    } else {
        x as i64
    }
}

} // verus!

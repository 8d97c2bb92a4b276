//! Plain value types shared across the simulation: integer 2-D vectors
//! and formation grid coordinates.

use vstd::prelude::*;
use crate::math::{clamp, floor_div, spec_clamp, COORD_LIMIT, ONE};

verus! {

/// An integer 2-D vector.  Positions and velocities use fixed-point
/// coordinates (`ONE` per pixel); screen positions use plain pixels.
#[derive(Clone, Copy, Debug, PartialEq, Eq, Structural)]
pub struct Vec2I {
    pub x: i32,
    pub y: i32,
}

/// True when both components fit the simulation's coordinate range.
pub open spec fn in_coord_range(v: Vec2I) -> bool {
    &&& -COORD_LIMIT <= v.x <= COORD_LIMIT
    &&& -COORD_LIMIT <= v.y <= COORD_LIMIT
}

impl Vec2I {
    /// Builds the vector `(x, y)`.
    pub fn new(x: i32, y: i32) -> (r: Vec2I)
        ensures
            r == (Vec2I { x, y }),
    {
        Vec2I { x, y }
    }

    /// Component-wise sum.
    pub fn plus(&self, o: &Vec2I) -> (r: Vec2I)
        requires
            -0x4000_0000 <= self.x + o.x <= 0x4000_0000,
            -0x4000_0000 <= self.y + o.y <= 0x4000_0000,
        ensures
            r == (Vec2I { x: (self.x + o.x) as i32, y: (self.y + o.y) as i32 }),
    {
        Vec2I { x: self.x + o.x, y: self.y + o.y }
    }

    /// Component-wise difference.
    pub fn minus(&self, o: &Vec2I) -> (r: Vec2I)
        requires
            -0x4000_0000 <= self.x - o.x <= 0x4000_0000,
            -0x4000_0000 <= self.y - o.y <= 0x4000_0000,
        ensures
            r == (Vec2I { x: (self.x - o.x) as i32, y: (self.y - o.y) as i32 }),
    {
        Vec2I { x: self.x - o.x, y: self.y - o.y }
    }

    /// Clamps both components into the simulation's coordinate range.
    pub fn clamped(&self) -> (r: Vec2I)
        ensures
            r.x == spec_clamp(self.x as int, -COORD_LIMIT as int, COORD_LIMIT as int),
            r.y == spec_clamp(self.y as int, -COORD_LIMIT as int, COORD_LIMIT as int),
            in_coord_range(r),
    {
        Vec2I {
            x: clamp(self.x, -COORD_LIMIT, COORD_LIMIT),
            y: clamp(self.y, -COORD_LIMIT, COORD_LIMIT),
        }
    }
}

/// What `round_up` returns for one component: the fixed-point value
/// rounded to the nearest pixel (ties go up the axis).
pub open spec fn spec_round_coord(c: int) -> int {
    (c + ONE / 2) / (ONE as int)
}

/// Converts a fixed-point position to whole pixels, rounding each
/// component to the nearest pixel.
pub fn round_up(v: &Vec2I) -> (r: Vec2I)
    requires
        in_coord_range(*v),
    ensures
        r.x == spec_round_coord(v.x as int),
        r.y == spec_round_coord(v.y as int),
{
    Vec2I { x: floor_div(v.x + ONE / 2, ONE), y: floor_div(v.y + ONE / 2, ONE) }
}

/// A formation grid coordinate: column then row.  It identifies an
/// enemy's home slot and doubles as the key troop references use.
#[derive(Clone, Copy, Debug, PartialEq, Eq, Structural, Hash)]
pub struct FormationIndex(pub u8, pub u8);

} // verus!

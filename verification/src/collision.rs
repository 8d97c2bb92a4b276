//! Axis-aligned collision boxes and their overlap test.

use vstd::prelude::*;
use crate::types::Vec2I;

verus! {

/// An axis-aligned box in pixel coordinates: top-left corner and size.
#[derive(Clone, Copy, Debug, PartialEq, Eq, Structural)]
pub struct CollBox {
    pub top_left: Vec2I,
    pub size: Vec2I,
}

/// True when the two boxes overlap (touching edges do not count).
pub open spec fn spec_boxes_overlap(a: CollBox, b: CollBox) -> bool {
    &&& a.top_left.x < b.top_left.x + b.size.x
    &&& b.top_left.x < a.top_left.x + a.size.x
    &&& a.top_left.y < b.top_left.y + b.size.y
    &&& b.top_left.y < a.top_left.y + a.size.y
}

impl CollBox {
    /// Reports whether this box overlaps `other`.
    pub fn check_collision(&self, other: &CollBox) -> (r: bool)
        requires
            -0x1000_0000 <= self.top_left.x <= 0x1000_0000,
            -0x1000_0000 <= self.top_left.y <= 0x1000_0000,
            0 <= self.size.x <= 0x1000_0000,
            0 <= self.size.y <= 0x1000_0000,
            -0x1000_0000 <= other.top_left.x <= 0x1000_0000,
            -0x1000_0000 <= other.top_left.y <= 0x1000_0000,
            0 <= other.size.x <= 0x1000_0000,
            0 <= other.size.y <= 0x1000_0000,
        ensures
            r == spec_boxes_overlap(*self, *other),
    {
        self.top_left.x < other.top_left.x + other.size.x
            && other.top_left.x < self.top_left.x + self.size.x
            && self.top_left.y < other.top_left.y + other.size.y
            && other.top_left.y < self.top_left.y + self.size.y
    }
}

} // verus!

//! Hit-test rectangles recorded during painting.

use vstd::prelude::*;
use crate::math::{clamp_px, px_add, px_sub, Vec2};

verus! {

/// An axis-aligned rectangle in Y-up coordinates: `top_left` is its highest
/// left corner and `size` extends right and down.
#[derive(Clone, Copy, Debug, PartialEq, Eq, Structural)]
pub struct BoundingBox {
    pub top_left: Vec2,
    pub size: Vec2,
}

/// Whether `p` lies inside the box (edges included).
pub open spec fn spec_contains(bb: BoundingBox, p: Vec2) -> bool {
    &&& p.x >= bb.top_left.x
    &&& p.x <= clamp_px(bb.top_left.x + bb.size.x)
    &&& p.y <= bb.top_left.y
    &&& p.y >= clamp_px(bb.top_left.y - bb.size.y)
}

impl BoundingBox {
    /// A box from its top-left corner and its size.
    pub fn new(top_left: Vec2, size: Vec2) -> (r: BoundingBox)
        ensures
            r.top_left == top_left,
            r.size == size,
    {
        BoundingBox { top_left, size }
    }

    /// Whether `p` lies inside the box.
    pub fn intersect(&self, p: Vec2) -> (r: bool)
        ensures
            r == spec_contains(*self, p),
    {
        let right = px_add(self.top_left.x, self.size.x);
        let bottom = px_sub(self.top_left.y, self.size.y);
        p.x >= self.top_left.x && p.x <= right && p.y <= self.top_left.y && p.y >= bottom
    }
}

} // verus!

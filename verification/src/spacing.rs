//! Four-sided spacing quantities: margins and paddings.

use vstd::prelude::*;
use crate::math::{clamp_px, px_add, vec2, Vec2};

verus! {

/// A per-side spacing amount in pixels.
#[derive(Clone, Copy, Debug, PartialEq, Eq, Structural)]
pub struct Spacing {
    pub top: i64,
    pub bottom: i64,
    pub left: i64,
    pub right: i64,
}

impl Spacing {
    /// Zero spacing on every side.
    pub fn zero() -> (r: Spacing)
        ensures
            r == (Spacing { top: 0, bottom: 0, left: 0, right: 0 }),
    {
        Spacing { top: 0, bottom: 0, left: 0, right: 0 }
    }

    /// The same amount on all four sides.
    pub fn symmetrical(value: i64) -> (r: Spacing)
        ensures
            r == (Spacing { top: value, bottom: value, left: value, right: value }),
    {
        Spacing { top: value, bottom: value, left: value, right: value }
    }

    /// `value` left and right, nothing above or below.
    pub fn x(value: i64) -> (r: Spacing)
        ensures
            r == (Spacing { top: 0, bottom: 0, left: value, right: value }),
    {
        Spacing { top: 0, bottom: 0, left: value, right: value }
    }

    /// `value` above and below, nothing left or right.
    pub fn y(value: i64) -> (r: Spacing)
        ensures
            r == (Spacing { top: value, bottom: value, left: 0, right: 0 }),
    {
        Spacing { top: value, bottom: value, left: 0, right: 0 }
    }

    /// A copy with the top amount replaced.
    pub fn with_top(&self, top: i64) -> (r: Spacing)
        ensures
            r == (Spacing { top, ..*self }),
    {
        Spacing { top, ..*self }
    }

    /// A copy with the bottom amount replaced.
    pub fn with_bottom(&self, bottom: i64) -> (r: Spacing)
        ensures
            r == (Spacing { bottom, ..*self }),
    {
        Spacing { bottom, ..*self }
    }

    /// A copy with the left amount replaced.
    pub fn with_left(&self, left: i64) -> (r: Spacing)
        ensures
            r == (Spacing { left, ..*self }),
    {
        Spacing { left, ..*self }
    }

    /// A copy with the right amount replaced.
    pub fn with_right(&self, right: i64) -> (r: Spacing)
        ensures
            r == (Spacing { right, ..*self }),
    {
        Spacing { right, ..*self }
    }

    /// What the spacing adds horizontally: left plus right.
    pub open spec fn spec_width(&self) -> int {
        clamp_px(self.left + self.right)
    }

    /// What the spacing adds vertically: top plus bottom.
    pub open spec fn spec_height(&self) -> int {
        clamp_px(self.top + self.bottom)
    }

    /// Left plus right.
    pub fn width(&self) -> (r: i64)
        ensures
            r == self.spec_width(),
    {
        px_add(self.left, self.right)
    }

    /// Top plus bottom.
    pub fn height(&self) -> (r: i64)
        ensures
            r == self.spec_height(),
    {
        px_add(self.top, self.bottom)
    }

    /// The spacing's total extent as a vector.
    pub fn size(&self) -> (r: Vec2)
        ensures
            r.x == self.spec_width(),
            r.y == self.spec_height(),
    {
        vec2(self.width(), self.height())
    }

    /// Component-wise saturating sum of two spacings.
    pub fn plus(self, o: Spacing) -> (r: Spacing)
        ensures
            r.top == clamp_px(self.top + o.top),
            r.bottom == clamp_px(self.bottom + o.bottom),
            r.left == clamp_px(self.left + o.left),
            r.right == clamp_px(self.right + o.right),
    {
        Spacing {
            top: px_add(self.top, o.top),
            bottom: px_add(self.bottom, o.bottom),
            left: px_add(self.left, o.left),
            right: px_add(self.right, o.right),
        }
    }
}

} // verus!

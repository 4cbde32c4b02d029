//! Integer rectangles, as rasterizer regions expect them.

use vstd::prelude::*;

verus! {

/// An integer rectangle: position of its corner plus width and height.
#[derive(Clone, Copy, Debug, PartialEq, Eq, Structural)]
pub struct RectangleInt {
    x: i32,
    y: i32,
    width: i32,
    height: i32,
}

impl RectangleInt {
    /// The corner's horizontal position.
    pub closed spec fn spec_x(&self) -> i32 {
        self.x
    }

    /// The corner's vertical position.
    pub closed spec fn spec_y(&self) -> i32 {
        self.y
    }

    /// The rectangle's width.
    pub closed spec fn spec_width(&self) -> i32 {
        self.width
    }

    /// The rectangle's height.
    pub closed spec fn spec_height(&self) -> i32 {
        self.height
    }

    /// A rectangle from its corner, width and height.
    pub fn new(x: i32, y: i32, width: i32, height: i32) -> (r: Self)
        ensures
            r.spec_x() == x,
            r.spec_y() == y,
            r.spec_width() == width,
            r.spec_height() == height,
    {
        RectangleInt { x, y, width, height }
    }

    /// The corner's horizontal position.
    pub fn x(&self) -> (r: i32)
        ensures
            r == self.spec_x(),
    {
        self.x
    }

    /// Moves the corner horizontally.
    pub fn set_x(&mut self, x: i32)
        ensures
            final(self).spec_x() == x,
            final(self).spec_y() == old(self).spec_y(),
            final(self).spec_width() == old(self).spec_width(),
            final(self).spec_height() == old(self).spec_height(),
    {
        self.x = x;
    }

    /// The corner's vertical position.
    pub fn y(&self) -> (r: i32)
        ensures
            r == self.spec_y(),
    {
        self.y
    }

    /// Moves the corner vertically.
    pub fn set_y(&mut self, y: i32)
        ensures
            final(self).spec_y() == y,
            final(self).spec_x() == old(self).spec_x(),
            final(self).spec_width() == old(self).spec_width(),
            final(self).spec_height() == old(self).spec_height(),
    {
        self.y = y;
    }

    /// The rectangle's width.
    pub fn width(&self) -> (r: i32)
        ensures
            r == self.spec_width(),
    {
        self.width
    }

    /// Replaces the width.
    pub fn set_width(&mut self, width: i32)
        ensures
            final(self).spec_width() == width,
            final(self).spec_x() == old(self).spec_x(),
            final(self).spec_y() == old(self).spec_y(),
            final(self).spec_height() == old(self).spec_height(),
    {
        self.width = width;
    }

    /// The rectangle's height.
    pub fn height(&self) -> (r: i32)
        ensures
            r == self.spec_height(),
    {
        self.height
    }

    /// Replaces the height.
    pub fn set_height(&mut self, height: i32)
        ensures
            final(self).spec_height() == height,
            final(self).spec_x() == old(self).spec_x(),
            final(self).spec_y() == old(self).spec_y(),
            final(self).spec_width() == old(self).spec_width(),
    {
        self.height = height;
    }
}

} // verus!

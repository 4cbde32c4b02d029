//! The per-element interaction summary handed back to widget code.

use vstd::prelude::*;
use crate::math::Vec2;

verus! {

/// What one element experienced this frame, judged against the previous
/// frame's hit boxes, plus the cursor position relative to its corner.
#[derive(Clone, Copy, Debug, PartialEq, Eq, Structural)]
pub struct Response {
    pub hovered: bool,
    pub pressed: bool,
    pub released: bool,
    pub double_clicked: bool,
    pub held: bool,
    pub relative_mouse_pos: Vec2,
}

/// The response of an element nothing happened to.
pub open spec fn spec_idle_response() -> Response {
    Response {
        hovered: false,
        pressed: false,
        released: false,
        double_clicked: false,
        held: false,
        relative_mouse_pos: Vec2 { x: 0, y: 0 },
    }
}

impl Default for Response {
    /// The response of an element nothing happened to.
    fn default() -> (r: Response)
        ensures
            r == spec_idle_response(),
    {
        Response {
            hovered: false,
            pressed: false,
            released: false,
            double_clicked: false,
            held: false,
            relative_mouse_pos: Vec2 { x: 0, y: 0 },
        }
    }
}

} // verus!

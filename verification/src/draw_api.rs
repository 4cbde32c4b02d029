//! The recording draw surface.
//!
//! Widgets and the paint loop call primitive methods here; the surface
//! applies the current tint, records the primitive as a `DrawCmd` for an
//! external rasterizer, and collects `(Id, BoundingBox)` pairs for next
//! frame's hit testing.  Pass 0 is the shadow pass, pass 1 the foreground
//! pass.

use vstd::prelude::*;
use crate::bounding_box::BoundingBox;
use crate::color::{spec_chan, Color};
use crate::id::Id;
use crate::math::{clamp_px, px_mul, Vec2, PX_LIMIT};
use crate::style::{Align, Font};
use crate::image::Image;

verus! {

/// One recorded drawing primitive, in the engine's Y-up coordinates.
#[derive(Clone, Debug)]
pub enum DrawCmd {
    Rectangle { pos: Vec2, size: Vec2, color: Color },
    RectangleRounded { pos: Vec2, size: Vec2, rounding: i64, color: Color },
    RectangleBorder { pos: Vec2, size: Vec2, thickness: i64, color: Color },
    RectangleBorderRounded { pos: Vec2, size: Vec2, thickness: i64, rounding: i64, color: Color },
    Circle { pos: Vec2, radius: i64, width: i64, color: Color },
    CircleSegment {
        pos: Vec2,
        radius: i64,
        from_angle_milli: i64,
        to_angle_milli: i64,
        width: i64,
        color: Color,
    },
    Line { from: Vec2, to: Vec2, width: i64, color: Color },
    Text {
        text: String,
        pos: Vec2,
        bounding_box: Vec2,
        text_height: i64,
        align: Align,
        color: Color,
        font: Font,
    },
    ImageCmd { pos: Vec2, size: Vec2, image: Image },
}

proof fn lemma_chan_mul_bound(a: u8, b: u8)
    ensures
        0 <= a as int * b as int <= 65025,
{
    assert(0 <= a as int * b as int <= 65025) by (nonlinear_arith)
        requires
            a <= 255,
            b <= 255,
    ;
}

/// `c` tinted by `t`: channels multiplied and rescaled to `0..=255`.
pub open spec fn spec_tinted(t: Color, c: Color) -> Color {
    Color {
        r: spec_chan(t.r * c.r / 255) as u8,
        g: spec_chan(t.g * c.g / 255) as u8,
        b: spec_chan(t.b * c.b / 255) as u8,
        a: spec_chan(t.a * c.a / 255) as u8,
    }
}

/// The width and height the monospace metric gives a run of `n` glyphs at
/// `text_height`: half the height per glyph, width capped at `max_width`.
pub open spec fn spec_text_size(n: int, text_height: int, max_width: int) -> Vec2 {
    let hw = if text_height >= 0 {
        text_height / 2
    } else {
        0
    };
    let capped_n = if n > PX_LIMIT {
        PX_LIMIT as int
    } else {
        n
    };
    let w = clamp_px(capped_n * hw);
    Vec2 {
        x: if w > max_width {
            max_width as i64
        } else {
            w as i64
        },
        y: if text_height >= 0 {
            text_height as i64
        } else {
            0
        },
    }
}

/// The size the monospace metric gives `text` at `text_height`, width
/// capped at `max_width`.
pub fn measure_text(text: &str, text_height: i64, max_width: i64) -> (r: Vec2)
    ensures
        r == spec_text_size(text@.len() as int, text_height as int, max_width as int),
{
    let n = text.unicode_len();
    let capped_n: i64 = if (n as u64) > (PX_LIMIT as u64) {
        PX_LIMIT
    } else {
        n as i64
    };
    let hw: i64 = if text_height >= 0 {
        text_height / 2
    } else {
        0
    };
    let w = px_mul(capped_n, hw);
    Vec2 {
        x: if w > max_width {
            max_width
        } else {
            w
        },
        y: if text_height >= 0 {
            text_height
        } else {
            0
        },
    }
}

/// Recording surface: collects primitives and hit boxes; holds the current
/// pass, tint and shadow scale.
pub struct DrawApi {
    /// The primitives recorded so far, in emission order.
    pub cmds: Vec<DrawCmd>,
    /// The hit boxes recorded so far, in paint order.
    pub boxes: Vec<(Id, BoundingBox)>,
    /// The current pass: 0 for shadows, 1 for foreground.
    pub pass: i32,
    /// The current shadow scale in percent; recorded only.
    pub scale: i64,
    /// The current tint, multiplied into every primitive's color.
    pub tint: Color,
}

impl DrawApi {
    /// The current tint.
    pub open spec fn spec_tint(&self) -> Color {
        self.tint
    }

    /// A fresh surface: no primitives, no boxes, foreground pass, no tint.
    pub fn new() -> (d: DrawApi)
        ensures
            d.cmds@.len() == 0,
            d.boxes@.len() == 0,
            d.pass == 1,
            d.scale == 100,
            d.spec_tint() == (Color { r: 255, g: 255, b: 255, a: 255 }),
    {
        DrawApi {
            cmds: Vec::new(),
            boxes: Vec::new(),
            pass: 1,
            scale: 100,
            tint: Color { r: 255, g: 255, b: 255, a: 255 },
        }
    }

    /// The size the monospace metric gives `text` at `text_height`, width
    /// capped at `max_width`.
    pub fn calc_text_size(&self, text: &str, text_height: i64, max_width: i64, font: Font) -> (r:
        Vec2)
        ensures
            r == spec_text_size(text@.len() as int, text_height as int, max_width as int),
    {
        measure_text(text, text_height, max_width)
    }

    fn tinted(&self, c: Color) -> (r: Color)
        ensures
            r == spec_tinted(self.spec_tint(), c),
    {
        proof {
            lemma_chan_mul_bound(self.tint.r, c.r);
            lemma_chan_mul_bound(self.tint.g, c.g);
            lemma_chan_mul_bound(self.tint.b, c.b);
            lemma_chan_mul_bound(self.tint.a, c.a);
        }
        Color {
            r: ((self.tint.r as u32) * (c.r as u32) / 255) as u8,
            g: ((self.tint.g as u32) * (c.g as u32) / 255) as u8,
            b: ((self.tint.b as u32) * (c.b as u32) / 255) as u8,
            a: ((self.tint.a as u32) * (c.a as u32) / 255) as u8,
        }
    }

    /// Records a filled rectangle, tinted.
    pub fn rectangle(&mut self, pos: Vec2, size: Vec2, color: Color)
        ensures
            final(self).cmds@ == old(self).cmds@.push(
                DrawCmd::Rectangle { pos, size, color: spec_tinted(old(self).spec_tint(), color) },
            ),
            final(self).boxes == old(self).boxes,
            final(self).pass == old(self).pass,
            final(self).scale == old(self).scale,
            final(self).spec_tint() == old(self).spec_tint(),
    {
        let color = self.tinted(color);
        self.cmds.push(DrawCmd::Rectangle { pos, size, color });
    }

    /// Records a filled rounded rectangle, tinted.
    pub fn rectangle_rounded(&mut self, pos: Vec2, size: Vec2, rounding: i64, color: Color)
        ensures
            final(self).cmds@ == old(self).cmds@.push(
                DrawCmd::RectangleRounded {
                    pos,
                    size,
                    rounding,
                    color: spec_tinted(old(self).spec_tint(), color),
                },
            ),
            final(self).boxes == old(self).boxes,
            final(self).pass == old(self).pass,
            final(self).scale == old(self).scale,
            final(self).spec_tint() == old(self).spec_tint(),
    {
        let color = self.tinted(color);
        self.cmds.push(DrawCmd::RectangleRounded { pos, size, rounding, color });
    }

    /// Records a stroked rectangle border, tinted.
    pub fn rectangle_border(&mut self, pos: Vec2, size: Vec2, thickness: i64, color: Color)
        ensures
            final(self).cmds@ == old(self).cmds@.push(
                DrawCmd::RectangleBorder {
                    pos,
                    size,
                    thickness,
                    color: spec_tinted(old(self).spec_tint(), color),
                },
            ),
            final(self).boxes == old(self).boxes,
            final(self).pass == old(self).pass,
            final(self).scale == old(self).scale,
            final(self).spec_tint() == old(self).spec_tint(),
    {
        let color = self.tinted(color);
        self.cmds.push(DrawCmd::RectangleBorder { pos, size, thickness, color });
    }

    /// Records a stroked rounded rectangle border, tinted.
    pub fn rectangle_border_rounded(
        &mut self,
        pos: Vec2,
        size: Vec2,
        thickness: i64,
        rounding: i64,
        color: Color,
    )
        ensures
            final(self).cmds@ == old(self).cmds@.push(
                DrawCmd::RectangleBorderRounded {
                    pos,
                    size,
                    thickness,
                    rounding,
                    color: spec_tinted(old(self).spec_tint(), color),
                },
            ),
            final(self).boxes == old(self).boxes,
            final(self).pass == old(self).pass,
            final(self).scale == old(self).scale,
            final(self).spec_tint() == old(self).spec_tint(),
    {
        let color = self.tinted(color);
        self.cmds.push(DrawCmd::RectangleBorderRounded { pos, size, thickness, rounding, color });
    }

    /// Records a stroked circle, tinted.
    pub fn circle(&mut self, pos: Vec2, radius: i64, width: i64, color: Color)
        ensures
            final(self).cmds@ == old(self).cmds@.push(
                DrawCmd::Circle {
                    pos,
                    radius,
                    width,
                    color: spec_tinted(old(self).spec_tint(), color),
                },
            ),
            final(self).boxes == old(self).boxes,
            final(self).pass == old(self).pass,
            final(self).scale == old(self).scale,
            final(self).spec_tint() == old(self).spec_tint(),
    {
        let color = self.tinted(color);
        self.cmds.push(DrawCmd::Circle { pos, radius, width, color });
    }

    /// Records a stroked circular arc, tinted; angles are in
    /// milliradians.
    pub fn circle_segment(
        &mut self,
        pos: Vec2,
        radius: i64,
        from_angle_milli: i64,
        to_angle_milli: i64,
        width: i64,
        color: Color,
    )
        ensures
            final(self).cmds@ == old(self).cmds@.push(
                DrawCmd::CircleSegment {
                    pos,
                    radius,
                    from_angle_milli,
                    to_angle_milli,
                    width,
                    color: spec_tinted(old(self).spec_tint(), color),
                },
            ),
            final(self).boxes == old(self).boxes,
            final(self).pass == old(self).pass,
            final(self).scale == old(self).scale,
            final(self).spec_tint() == old(self).spec_tint(),
    {
        let color = self.tinted(color);
        self.cmds.push(
            DrawCmd::CircleSegment {
                pos,
                radius,
                from_angle_milli,
                to_angle_milli,
                width,
                color,
            },
        );
    }

    /// Records a stroked line, tinted.
    pub fn line(&mut self, from: Vec2, to: Vec2, width: i64, color: Color)
        ensures
            final(self).cmds@ == old(self).cmds@.push(
                DrawCmd::Line { from, to, width, color: spec_tinted(old(self).spec_tint(), color) },
            ),
            final(self).boxes == old(self).boxes,
            final(self).pass == old(self).pass,
            final(self).scale == old(self).scale,
            final(self).spec_tint() == old(self).spec_tint(),
    {
        let color = self.tinted(color);
        self.cmds.push(DrawCmd::Line { from, to, width, color });
    }

    /// Records a text run, tinted.
    pub fn text(
        &mut self,
        text: &str,
        pos: Vec2,
        bounding_box: Vec2,
        text_height: i64,
        align: Align,
        color: Color,
        font: Font,
    )
        ensures
            final(self).cmds@.len() == old(self).cmds@.len() + 1,
            final(self).cmds@.take(old(self).cmds@.len() as int) == old(self).cmds@,
            ({
                let last = final(self).cmds@.last();
                &&& last matches DrawCmd::Text {
                    text: t,
                    pos: p,
                    bounding_box: b,
                    text_height: h,
                    align: a,
                    color: c,
                    font: f,
                } ==> t@ == text@ && p == pos && b == bounding_box && h == text_height && a
                    == align && c == spec_tinted(old(self).spec_tint(), color) && f == font
                &&& last is Text
            }),
            final(self).boxes == old(self).boxes,
            final(self).pass == old(self).pass,
            final(self).scale == old(self).scale,
            final(self).spec_tint() == old(self).spec_tint(),
    {
        let color = self.tinted(color);
        let owned = text.to_owned();
        self.cmds.push(
            DrawCmd::Text {
                text: owned,
                pos,
                bounding_box,
                text_height,
                align,
                color,
                font,
            },
        );
        proof {
            assert(self.cmds@.take(old(self).cmds@.len() as int) =~= old(self).cmds@);
        }
    }

    /// Records an image blit.
    pub fn image(&mut self, pos: Vec2, size: Vec2, image: Image)
        ensures
            final(self).cmds@.len() == old(self).cmds@.len() + 1,
            final(self).cmds@.take(old(self).cmds@.len() as int) == old(self).cmds@,
            final(self).cmds@.last() is ImageCmd,
            final(self).boxes == old(self).boxes,
            final(self).pass == old(self).pass,
            final(self).scale == old(self).scale,
            final(self).spec_tint() == old(self).spec_tint(),
    {
        self.cmds.push(DrawCmd::ImageCmd { pos, size, image });
        proof {
            assert(self.cmds@.take(old(self).cmds@.len() as int) =~= old(self).cmds@);
        }
    }

    /// Records a hit box for `id`.
    pub fn push_box(&mut self, id: Id, bb: BoundingBox)
        ensures
            final(self).boxes@ == old(self).boxes@.push((id, bb)),
            final(self).cmds == old(self).cmds,
            final(self).pass == old(self).pass,
            final(self).scale == old(self).scale,
            final(self).spec_tint() == old(self).spec_tint(),
    {
        self.boxes.push((id, bb));
    }

    /// Sets the tint; ignored during the shadow pass, whose tint the paint
    /// loop controls.
    pub fn set_tint(&mut self, tint: Color)
        ensures
            final(self).spec_tint() == if old(self).pass == 0 {
                old(self).spec_tint()
            } else {
                tint
            },
            final(self).cmds == old(self).cmds,
            final(self).boxes == old(self).boxes,
            final(self).pass == old(self).pass,
            final(self).scale == old(self).scale,
    {
        if self.pass == 0 {
            return ;
        }
        self.tint = tint;
    }

    /// Sets the tint unconditionally; the paint loop uses this for shadow
    /// color.
    pub fn set_tint_internal(&mut self, tint: Color)
        ensures
            final(self).spec_tint() == tint,
            final(self).cmds == old(self).cmds,
            final(self).boxes == old(self).boxes,
            final(self).pass == old(self).pass,
            final(self).scale == old(self).scale,
    {
        self.tint = tint;
    }

    /// Switches between the shadow pass (0) and the foreground pass (1).
    pub fn set_pass(&mut self, pass: i32)
        ensures
            final(self).pass == pass,
            final(self).cmds == old(self).cmds,
            final(self).boxes == old(self).boxes,
            final(self).scale == old(self).scale,
            final(self).spec_tint() == old(self).spec_tint(),
    {
        self.pass = pass;
    }

    /// The current pass.
    pub fn pass(&self) -> (p: i32)
        ensures
            p == self.pass,
    {
        self.pass
    }

    /// Sets the shadow scale in percent.
    pub fn set_scale(&mut self, scale: i64)
        ensures
            final(self).scale == scale,
            final(self).cmds == old(self).cmds,
            final(self).boxes == old(self).boxes,
            final(self).pass == old(self).pass,
            final(self).spec_tint() == old(self).spec_tint(),
    {
        self.scale = scale;
    }
}

} // verus!

//! Immutable style descriptors.  Every `with`-style builder returns a
//! modified copy; a `Style` never mutates in place.

use vstd::prelude::*;
use crate::color::Color;
use crate::math::Vec2;
use crate::spacing::Spacing;

verus! {

/// Horizontal alignment of a line inside its container.
#[derive(Clone, Copy, Debug, PartialEq, Eq, Structural)]
pub enum Align {
    Right,
    Left,
    Center,
}

/// Vertical alignment of an element inside its line.
#[derive(Clone, Copy, Debug, PartialEq, Eq, Structural)]
pub enum VertAlign {
    Top,
    Bottom,
    Center,
}

/// A handle to a loaded font face; the rasterizer gives the handles out.
#[derive(Clone, Copy, Debug, PartialEq, Eq, Structural)]
pub struct Font {
    pub id: i32,
}

impl Font {
    /// The default font face.
    pub fn load() -> (f: Font)
        ensures
            f.id == 0,
    {
        Font { id: 0 }
    }
}

impl Default for Font {
    /// The default font face.
    fn default() -> (f: Font)
        ensures
            f.id == 0,
    {
        Font { id: 0 }
    }
}

/// The chrome drawn behind an element's content.
#[derive(Clone, Copy, Debug, PartialEq, Eq, Structural)]
pub enum FrameStyle {
    NoFrame,
    Rectangle,
    RoundedRectangle(i64),
    Circle,
}

/// Everything that styles an element: chrome, colors, spacing, text
/// metrics, alignment and shadow.
#[derive(Clone, Copy, Debug, PartialEq, Eq, Structural)]
pub struct Style {
    pub frame_style: FrameStyle,
    pub frame_color: Color,
    pub border_width: i64,
    pub border_color: Color,
    pub text_color: Color,
    pub inactive_color: Color,
    pub margin: Spacing,
    pub padding: Spacing,
    pub text_height: i64,
    pub align: Option<Align>,
    pub vert_align: VertAlign,
    pub font: Option<Font>,
    pub icon_font: Option<Font>,
    pub shadow_dir: Option<Vec2>,
    /// Shadow scale in percent; 100 leaves geometry unscaled.
    pub shadow_scale: i64,
    pub shadow_color: Color,
    pub debug: bool,
}

/// The default style: a dark translucent rectangle, light gray text, 20 px
/// text, no border, no shadow.
pub open spec fn spec_default_style() -> Style {
    Style {
        frame_style: FrameStyle::Rectangle,
        frame_color: Color { r: 51, g: 51, b: 51, a: 128 },
        border_width: 0,
        border_color: Color { r: 102, g: 102, b: 102, a: 255 },
        text_color: Color { r: 204, g: 204, b: 204, a: 255 },
        inactive_color: Color { r: 102, g: 102, b: 102, a: 255 },
        margin: Spacing { top: 0, bottom: 0, left: 0, right: 0 },
        padding: Spacing { top: 0, bottom: 0, left: 0, right: 0 },
        text_height: 20,
        align: None,
        vert_align: VertAlign::Top,
        font: None,
        icon_font: None,
        shadow_dir: None,
        shadow_scale: 100,
        shadow_color: Color { r: 26, g: 26, b: 26, a: 230 },
        debug: false,
    }
}

impl Default for Style {
    /// The default style.
    fn default() -> (s: Style)
        ensures
            s == spec_default_style(),
    {
        Style {
            frame_style: FrameStyle::Rectangle,
            frame_color: Color { r: 51, g: 51, b: 51, a: 128 },
            border_width: 0,
            border_color: Color { r: 102, g: 102, b: 102, a: 255 },
            text_color: Color { r: 204, g: 204, b: 204, a: 255 },
            inactive_color: Color { r: 102, g: 102, b: 102, a: 255 },
            margin: Spacing { top: 0, bottom: 0, left: 0, right: 0 },
            padding: Spacing { top: 0, bottom: 0, left: 0, right: 0 },
            text_height: 20,
            align: None,
            vert_align: VertAlign::Top,
            font: None,
            icon_font: None,
            shadow_dir: None,
            shadow_scale: 100,
            shadow_color: Color { r: 26, g: 26, b: 26, a: 230 },
            debug: false,
        }
    }
}

impl Style {
    /// A copy with another frame shape.
    pub fn frame_style(&self, frame_style: FrameStyle) -> (r: Style)
        ensures
            r == (Style { frame_style, ..*self }),
    {
        Style { frame_style, ..*self }
    }

    /// A copy with another frame color.
    pub fn frame_color(&self, frame_color: Color) -> (r: Style)
        ensures
            r == (Style { frame_color, ..*self }),
    {
        Style { frame_color, ..*self }
    }

    /// A copy with another border width.
    pub fn border_width(&self, border_width: i64) -> (r: Style)
        ensures
            r == (Style { border_width, ..*self }),
    {
        Style { border_width, ..*self }
    }

    /// A copy with another border color.
    pub fn border_color(&self, border_color: Color) -> (r: Style)
        ensures
            r == (Style { border_color, ..*self }),
    {
        Style { border_color, ..*self }
    }

    /// A copy with another text color.
    pub fn text_color(&self, text_color: Color) -> (r: Style)
        ensures
            r == (Style { text_color, ..*self }),
    {
        Style { text_color, ..*self }
    }

    /// A copy with another inactive-text color.
    pub fn inactive_color(&self, inactive_color: Color) -> (r: Style)
        ensures
            r == (Style { inactive_color, ..*self }),
    {
        Style { inactive_color, ..*self }
    }

    /// A copy with another margin.
    pub fn margin(&self, margin: Spacing) -> (r: Style)
        ensures
            r == (Style { margin, ..*self }),
    {
        Style { margin, ..*self }
    }

    /// A copy with another padding.
    pub fn padding(&self, padding: Spacing) -> (r: Style)
        ensures
            r == (Style { padding, ..*self }),
    {
        Style { padding, ..*self }
    }

    /// A copy with margin and padding both set to `spacing`.
    pub fn spacing(&self, spacing: Spacing) -> (r: Style)
        ensures
            r == (Style { margin: spacing, padding: spacing, ..*self }),
    {
        Style { margin: spacing, padding: spacing, ..*self }
    }

    /// A copy with another text height.
    pub fn text_height(&self, text_height: i64) -> (r: Style)
        ensures
            r == (Style { text_height, ..*self }),
    {
        Style { text_height, ..*self }
    }

    /// A copy with the horizontal alignment set.
    pub fn align(&self, align: Align) -> (r: Style)
        ensures
            r == (Style { align: Some(align), ..*self }),
    {
        Style { align: Some(align), ..*self }
    }

    /// A copy with another vertical alignment.
    pub fn vert_align(&self, vert_align: VertAlign) -> (r: Style)
        ensures
            r == (Style { vert_align, ..*self }),
    {
        Style { vert_align, ..*self }
    }

    /// A copy with the font set.
    pub fn font(&self, font: Font) -> (r: Style)
        ensures
            r == (Style { font: Some(font), ..*self }),
    {
        Style { font: Some(font), ..*self }
    }

    /// A copy with the icon font set.
    pub fn icon_font(&self, icon_font: Font) -> (r: Style)
        ensures
            r == (Style { icon_font: Some(icon_font), ..*self }),
    {
        Style { icon_font: Some(icon_font), ..*self }
    }

    /// A copy without a shadow.
    pub fn no_shadow(&self) -> (r: Style)
        ensures
            r == (Style { shadow_dir: None, ..*self }),
    {
        Style { shadow_dir: None, ..*self }
    }

    /// A copy with the shadow direction set.
    pub fn shadow_dir(&self, shadow_dir: Vec2) -> (r: Style)
        ensures
            r == (Style { shadow_dir: Some(shadow_dir), ..*self }),
    {
        Style { shadow_dir: Some(shadow_dir), ..*self }
    }

    /// A copy with another shadow scale (in percent).
    pub fn shadow_scale(&self, shadow_scale: i64) -> (r: Style)
        ensures
            r == (Style { shadow_scale, ..*self }),
    {
        Style { shadow_scale, ..*self }
    }

    /// A copy with another shadow color.
    pub fn shadow_color(&self, shadow_color: Color) -> (r: Style)
        ensures
            r == (Style { shadow_color, ..*self }),
    {
        Style { shadow_color, ..*self }
    }

    /// A copy with the debug overlay toggled.
    pub fn debug(&self, debug: bool) -> (r: Style)
        ensures
            r == (Style { debug, ..*self }),
    {
        Style { debug, ..*self }
    }
}

} // verus!

//! RGBA colors on 8-bit channels, and the hue/saturation/value conversions
//! behind the hover and held button tints.
//!
//! The conversions follow the classic Foley & van Dam formulas, with every
//! channel scaled to `0..=255` and divisions kept to non-negative
//! operands.

use vstd::prelude::*;

verus! {

/// An RGBA color with 8-bit channels.  The hue/saturation/value functions
/// reuse the same shape with `r`, `g`, `b` carrying `h`, `s`, `v`.
#[derive(Clone, Copy, Debug, PartialEq, Eq, Structural)]
pub struct Color {
    pub r: u8,
    pub g: u8,
    pub b: u8,
    pub a: u8,
}

/// Shorthand constructor for `Color`.
pub fn rgba(r: u8, g: u8, b: u8, a: u8) -> (c: Color)
    ensures
        c == (Color { r, g, b, a }),
{
    Color { r, g, b, a }
}

/// `x` pulled into a channel's range `0..=255`.
pub open spec fn spec_chan(x: int) -> int {
    if x < 0 {
        0
    } else if x > 255 {
        255
    } else {
        x
    }
}

fn chan(x: i64) -> (r: u8)
    ensures
        r == spec_chan(x as int),
{
    if x < 0 {
        0
    } else if x > 255 {
        255
    } else {
        x as u8
    }
}

/// The hue channel of `c` in HSV, scaled to `0..=255`.
pub open spec fn spec_hue(c: Color) -> int {
    let (r0, g0, b0) = (c.r as int, c.g as int, c.b as int);
    let (g1, b1, k1) = if g0 < b0 {
        (b0, g0, -255)
    } else {
        (g0, b0, 0)
    };
    let (r2, g2, k2) = if r0 < g1 {
        (g1, r0, -85 - k1)
    } else {
        (r0, g1, k1)
    };
    let chroma = r2 - if g2 < b1 {
        g2
    } else {
        b1
    };
    let num = g2 - b1;
    let frac = if num >= 0 {
        num * 255 / (6 * chroma + 1)
    } else {
        -((-num) * 255 / (6 * chroma + 1))
    };
    let h = if k2 + frac >= 0 {
        k2 + frac
    } else {
        -(k2 + frac)
    };
    spec_chan(h)
}

/// The saturation channel of `c` in HSV, scaled to `0..=255`.
pub open spec fn spec_saturation(c: Color) -> int {
    let (r0, g0, b0) = (c.r as int, c.g as int, c.b as int);
    let (g1, b1) = if g0 < b0 {
        (b0, g0)
    } else {
        (g0, b0)
    };
    let (r2, g2) = if r0 < g1 {
        (g1, r0)
    } else {
        (r0, g1)
    };
    let chroma = r2 - if g2 < b1 {
        g2
    } else {
        b1
    };
    if r2 == 0 {
        0
    } else {
        spec_chan(chroma * 255 / r2)
    }
}

/// The value channel of `c` in HSV: the largest of the three channels.
pub open spec fn spec_value(c: Color) -> int {
    let (r0, g0, b0) = (c.r as int, c.g as int, c.b as int);
    if r0 >= g0 && r0 >= b0 {
        r0
    } else if g0 >= b0 {
        g0
    } else {
        b0
    }
}

/// Converts an RGB color to HSV; the result's `r`, `g`, `b` slots carry
/// hue, saturation and value, alpha passes through.
pub fn rgb_to_hsv(c: Color) -> (h: Color)
    ensures
        h.r == spec_hue(c),
        h.g == spec_saturation(c),
        h.b == spec_value(c),
        h.a == c.a,
{
    let mut r: i64 = c.r as i64;
    let mut g: i64 = c.g as i64;
    let mut b: i64 = c.b as i64;

    let mut k: i64 = 0;
    if g < b {
        let t = g;
        g = b;
        b = t;
        k = -255;
    }
    if r < g {
        let t = r;
        r = g;
        g = t;
        k = -85 - k;
    }

    let chroma: i64 = r - if g < b {
        g
    } else {
        b
    };
    let num: i64 = g - b;
    let frac: i64 = if num >= 0 {
        num * 255 / (6 * chroma + 1)
    } else {
        -((-num) * 255 / (6 * chroma + 1))
    };
    let h_raw: i64 = if k + frac >= 0 {
        k + frac
    } else {
        -(k + frac)
    };
    let s_raw: i64 = if r == 0 {
        0
    } else {
        chroma * 255 / r
    };

    Color { r: chan(h_raw), g: chan(s_raw), b: chan(r), a: c.a }
}

/// The red channel `(h, s, v)` converts back to, scaled to `0..=255`.
pub open spec fn spec_hsv_rgb(h: int, s: int, v: int) -> (int, int, int) {
    if s == 0 {
        (v, v, v)
    } else {
        let hh = h % 255;
        let i = hh * 6 / 255;
        let f = hh * 6 - i * 255;
        let p = v * (255 - s) / 255;
        let q = v * (65025 - s * f) / 65025;
        let t = v * (65025 - s * (255 - f)) / 65025;
        if i == 0 {
            (v, t, p)
        } else if i == 1 {
            (q, v, p)
        } else if i == 2 {
            (p, v, t)
        } else if i == 3 {
            (p, q, v)
        } else if i == 4 {
            (t, p, v)
        } else {
            (v, p, q)
        }
    }
}

/// Converts an HSV color (in the `r`, `g`, `b` slots) back to RGB; alpha
/// passes through.
pub fn hsv_to_rgb(c: Color) -> (r: Color)
    ensures
        r.r == spec_chan(spec_hsv_rgb(c.r as int, c.g as int, c.b as int).0),
        r.g == spec_chan(spec_hsv_rgb(c.r as int, c.g as int, c.b as int).1),
        r.b == spec_chan(spec_hsv_rgb(c.r as int, c.g as int, c.b as int).2),
        r.a == c.a,
{
    let h: i64 = c.r as i64;
    let s: i64 = c.g as i64;
    let v: i64 = c.b as i64;

    if s == 0 {
        return Color { r: chan(v), g: chan(v), b: chan(v), a: c.a };
    }

    let hh: i64 = h % 255;
    let i: i64 = hh * 6 / 255;
    proof {
        assert(0 <= hh * 6 - (hh * 6 / 255) * 255 < 255) by (nonlinear_arith)
            requires
                0 <= hh < 255,
        ;
    }
    let f: i64 = hh * 6 - i * 255;
    proof {
        assert(0 <= s * f <= 65025 && 0 <= s * (255 - f) <= 65025 && 0 <= v * (255 - s) <= 65025)
            by (nonlinear_arith)
            requires
                0 <= s <= 255,
                0 <= f <= 254,
                0 <= v <= 255,
        ;
        assert(0 <= v * (65025 - s * f) <= 255 * 65025 && 0 <= v * (65025 - s * (255 - f)) <= 255
            * 65025) by (nonlinear_arith)
            requires
                0 <= s * f <= 65025,
                0 <= s * (255 - f) <= 65025,
                0 <= v <= 255,
        ;
    }
    let p: i64 = v * (255 - s) / 255;
    let q: i64 = v * (65025 - s * f) / 65025;
    let t: i64 = v * (65025 - s * (255 - f)) / 65025;

    let (rr, gg, bb): (i64, i64, i64) = if i == 0 {
        (v, t, p)
    } else if i == 1 {
        (q, v, p)
    } else if i == 2 {
        (p, v, t)
    } else if i == 3 {
        (p, q, v)
    } else if i == 4 {
        (t, p, v)
    } else {
        (v, p, q)
    };

    Color { r: chan(rr), g: chan(gg), b: chan(bb), a: c.a }
}

/// The value shift that marks a hovered element: darken bright colors a
/// step, brighten dark ones.
pub open spec fn spec_shifted_value(v: int, step: int) -> int {
    if v > 128 {
        v - step
    } else {
        v + step
    }
}

/// The tint a frame takes while the cursor hovers it: its value channel
/// moved one small step toward the opposite brightness.
pub fn hover_color(color: Color) -> (r: Color)
    ensures
        ({
            let hsv = Color {
                r: spec_hue(color) as u8,
                g: spec_saturation(color) as u8,
                b: spec_chan(spec_shifted_value(spec_value(color), 13)) as u8,
                a: color.a,
            };
            &&& r.r == spec_chan(spec_hsv_rgb(hsv.r as int, hsv.g as int, hsv.b as int).0)
            &&& r.g == spec_chan(spec_hsv_rgb(hsv.r as int, hsv.g as int, hsv.b as int).1)
            &&& r.b == spec_chan(spec_hsv_rgb(hsv.r as int, hsv.g as int, hsv.b as int).2)
            &&& r.a == color.a
        }),
{
    let mut hsv = rgb_to_hsv(color);
    let v: i64 = hsv.b as i64;
    let shifted: i64 = if v > 128 {
        v - 13
    } else {
        v + 13
    };
    hsv.b = chan(shifted);
    hsv_to_rgb(hsv)
}

/// The tint a frame takes while the mouse holds it: as `hover_color`, with
/// a step twice as large.
pub fn held_color(color: Color) -> (r: Color)
    ensures
        ({
            let hsv = Color {
                r: spec_hue(color) as u8,
                g: spec_saturation(color) as u8,
                b: spec_chan(spec_shifted_value(spec_value(color), 26)) as u8,
                a: color.a,
            };
            &&& r.r == spec_chan(spec_hsv_rgb(hsv.r as int, hsv.g as int, hsv.b as int).0)
            &&& r.g == spec_chan(spec_hsv_rgb(hsv.r as int, hsv.g as int, hsv.b as int).1)
            &&& r.b == spec_chan(spec_hsv_rgb(hsv.r as int, hsv.g as int, hsv.b as int).2)
            &&& r.a == color.a
        }),
{
    let mut hsv = rgb_to_hsv(color);
    let v: i64 = hsv.b as i64;
    let shifted: i64 = if v > 128 {
        v - 26
    } else {
        v + 26
    };
    hsv.b = chan(shifted);
    hsv_to_rgb(hsv)
}

} // verus!

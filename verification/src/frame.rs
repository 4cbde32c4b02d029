//! Container chrome and the two-pass paint loop.
//!
//! Pass 0 paints shadows: only chrome of elements that declare a shadow
//! direction, tinted with the shadow color.  Pass 1 paints everything and
//! records hit boxes.  Containers recurse: a container's foreground pass
//! runs its own two passes over its lines.

use vstd::prelude::*;
use crate::bounding_box::BoundingBox;
use crate::color::Color;
use crate::draw_api::{DrawApi, DrawCmd};
use crate::id::Id;
use crate::element::{
    bounding_width, count_flex, spec_bounding_width, spec_flex_count, CanvasKind, Container,
    Element, ElementKind, Line,
};
use crate::math::{clamp_px, px_add, px_sub, Vec2};
use crate::style::{Align, FrameStyle, Style, VertAlign};

verus! {

/// The largest `r` with `r * r <= n`.
pub open spec fn spec_isqrt(n: nat) -> nat
    decreases n,
{
    if n == 0 {
        0
    } else {
        let p = spec_isqrt((n - 1) as nat);
        if (p + 1) * (p + 1) <= n {
            p + 1
        } else {
            p
        }
    }
}

proof fn lemma_isqrt_bounds(n: nat)
    ensures
        spec_isqrt(n) * spec_isqrt(n) <= n,
        n < (spec_isqrt(n) + 1) * (spec_isqrt(n) + 1),
    decreases n,
{
    if n > 0 {
        lemma_isqrt_bounds((n - 1) as nat);
        let p = spec_isqrt((n - 1) as nat);
        assert(p * p <= n - 1 && n - 1 < (p + 1) * (p + 1));
        if (p + 1) * (p + 1) <= n {
            assert(spec_isqrt(n) == p + 1);
            assert(n < ((p + 1) + 1) * ((p + 1) + 1)) by (nonlinear_arith)
                requires
                    n - 1 < (p + 1) * (p + 1),
                    p >= 0,
            ;
        } else {
            assert(spec_isqrt(n) == p);
        }
    } else {
        assert(spec_isqrt(0) == 0);
        assert(n < (spec_isqrt(n) + 1) * (spec_isqrt(n) + 1)) by (nonlinear_arith)
            requires
                n == 0,
                spec_isqrt(n) == 0,
        ;
    }
}

proof fn lemma_isqrt_unique(n: nat, r: nat)
    requires
        r * r <= n,
        n < (r + 1) * (r + 1),
    ensures
        r == spec_isqrt(n),
{
    lemma_isqrt_bounds(n);
    let s = spec_isqrt(n);
    assert(r == s) by (nonlinear_arith)
        requires
            r * r <= n,
            n < (r + 1) * (r + 1),
            s * s <= n,
            n < (s + 1) * (s + 1),
    ;
}

/// The integer square root, rounded down.
pub fn isqrt(n: u64) -> (r: u64)
    ensures
        r == spec_isqrt(n as nat),
{
    let mut lo: u64 = 0;
    let mut hi: u64 = 0x1_0000_0000;
    proof {
        assert((0x1_0000_0000 as int) * (0x1_0000_0000 as int) > u64::MAX);
    }
    while lo + 1 < hi
        invariant
            lo < hi <= 0x1_0000_0000,
            lo * lo <= n,
            n < hi * hi,
        decreases hi - lo,
    {
        let mid: u64 = lo + (hi - lo) / 2;
        proof {
            assert(mid * mid <= (0xffff_ffff as int) * (0xffff_ffff as int)) by (nonlinear_arith)
                requires
                    mid <= 0xffff_ffff,
            ;
        }
        if mid * mid <= n {
            lo = mid;
        } else {
            hi = mid;
        }
    }
    proof {
        lemma_isqrt_unique(n as nat, lo as nat);
    }
    lo
}

/// `v` clamped into `[0, 0x7fff_ffff]`, the band whose squares fit the
/// diagonal computation.
pub open spec fn spec_cap_dim(v: i64) -> int {
    if v < 0 {
        0
    } else if v > 0x7fff_ffff {
        0x7fff_ffff
    } else {
        v as int
    }
}

fn cap_dim(v: i64) -> (r: i64)
    ensures
        r == spec_cap_dim(v),
        0 <= r <= 0x7fff_ffff,
{
    if v < 0 {
        0
    } else if v > 0x7fff_ffff {
        0x7fff_ffff
    } else {
        v
    }
}

/// Half of `v`, with negative sizes treated as empty.
pub open spec fn spec_half(v: i64) -> int {
    if v >= 0 {
        v / 2
    } else {
        0
    }
}

/// Half of `v`, with negative sizes treated as empty.
pub fn half(v: i64) -> (r: i64)
    ensures
        r == spec_half(v),
{
    if v >= 0 {
        ((v as u64) / 2) as i64
    } else {
        0
    }
}

/// `a / b` on a non-negative dividend and positive divisor.
pub fn div_nonneg(a: i64, b: i64) -> (r: i64)
    requires
        a >= 0,
        b > 0,
    ensures
        r == a as int / b as int,
{
    ((a as u64) / (b as u64)) as i64
}

/// Whether the style draws a visible border: positive width and a visible
/// border color.
pub open spec fn spec_has_border(style: Style) -> bool {
    style.border_width > 0 && style.border_color.a > 0
}

/// The border width that takes effect: zero when no visible border.
pub open spec fn spec_effective_border(style: Style) -> int {
    if spec_has_border(style) {
        style.border_width as int
    } else {
        0
    }
}

/// The per-axis inset the frame shape needs around content of size `size`:
/// zero for no frame, the border width for rectangles, and for a circle
/// enough to inscribe the content's rectangle in the disc.
pub open spec fn spec_border_extra(style: Style, size: Vec2) -> Vec2 {
    let bw = spec_effective_border(style);
    match style.frame_style {
        FrameStyle::NoFrame => Vec2 { x: 0, y: 0 },
        FrameStyle::Rectangle => Vec2 { x: bw as i64, y: bw as i64 },
        FrameStyle::RoundedRectangle(_) => Vec2 { x: bw as i64, y: bw as i64 },
        FrameStyle::Circle => {
            let sx = spec_cap_dim(size.x);
            let sy = spec_cap_dim(size.y);
            let radius = spec_isqrt((sx * sx + sy * sy) as nat) as int / 2;
            Vec2 {
                x: clamp_px(clamp_px(radius - sx / 2) + bw) as i64,
                y: clamp_px(clamp_px(radius - sy / 2) + bw) as i64,
            }
        },
    }
}

/// The per-axis inset the frame shape needs around content of size `size`.
pub fn border_extra(style: &Style, size: Vec2) -> (r: Vec2)
    ensures
        r == spec_border_extra(*style, size),
{
    let has_border = style.border_width > 0 && style.border_color.a > 0;
    let bw: i64 = if has_border {
        style.border_width
    } else {
        0
    };
    match style.frame_style {
        FrameStyle::NoFrame => Vec2 { x: 0, y: 0 },
        FrameStyle::Rectangle => Vec2 { x: bw, y: bw },
        FrameStyle::RoundedRectangle(_) => Vec2 { x: bw, y: bw },
        FrameStyle::Circle => {
            let sx = cap_dim(size.x);
            let sy = cap_dim(size.y);
            proof {
                assert(sx * sx + sy * sy <= 2 * (0x7fff_ffff as int) * (0x7fff_ffff as int))
                    by (nonlinear_arith)
                    requires
                        0 <= sx <= 0x7fff_ffff,
                        0 <= sy <= 0x7fff_ffff,
                ;
            }
            let n: u64 = ((sx * sx) as u64) + ((sy * sy) as u64);
            let radius: i64 = (isqrt(n) / 2) as i64;
            proof {
                lemma_isqrt_bounds(n as nat);
                assert(spec_isqrt(n as nat) * spec_isqrt(n as nat) <= n);
                assert(spec_isqrt(n as nat) <= 0xffff_ffff) by (nonlinear_arith)
                    requires
                        spec_isqrt(n as nat) * spec_isqrt(n as nat) <= n,
                        n <= 2 * (0x7fff_ffff as int) * (0x7fff_ffff as int),
                ;
            }
            Vec2 {
                x: px_add(px_sub(radius, half(sx)), bw),
                y: px_add(px_sub(radius, half(sy)), bw),
            }
        },
    }
}

/// The horizontal slack each flex element on a line receives: the space
/// left beside the line's natural width, divided evenly among the line's
/// flex elements; nothing when the line has no flex or no slack.
pub open spec fn spec_line_extra(inner_width: i64, line_width: i64, flex_count: int) -> int {
    let k = if flex_count > 0x7fff_ffff {
        0x7fff_ffff as int
    } else {
        flex_count
    };
    if k > 0 && inner_width > line_width {
        clamp_px(inner_width - line_width) / k
    } else {
        0
    }
}

/// The horizontal slack each flex element on a line receives.
pub fn line_extra_per_flex(inner_width: i64, line_width: i64, flex_count: usize) -> (per: i64)
    ensures
        per == spec_line_extra(inner_width, line_width, flex_count as int),
{
    let fc: i64 = if (flex_count as u64) > 0x7fff_ffff {
        0x7fff_ffff
    } else {
        flex_count as i64
    };
    if fc > 0 && inner_width > line_width {
        let extra = px_sub(inner_width, line_width);
        div_nonneg(extra, fc)
    } else {
        0
    }
}

/// The width an element is painted at: its content width plus its share of
/// the line's slack when it is flex, its content width alone otherwise.
pub open spec fn spec_effective_width(content_x: i64, flex_x: bool, per: i64) -> int {
    if flex_x {
        clamp_px(content_x + per)
    } else {
        content_x as int
    }
}

/// The width an element is painted at.
pub fn effective_width(content_x: i64, flex_x: bool, per: i64) -> (r: i64)
    ensures
        r == spec_effective_width(content_x, flex_x, per),
{
    if flex_x {
        px_add(content_x, per)
    } else {
        content_x
    }
}

/// A lone spring absorbs exactly the line's slack while its neighbours keep
/// their sizes: with one flex element on the line, that element receives
/// the whole difference between the available width and the line's natural
/// width, and every non-flex element is painted at its own content width.
pub proof fn lemma_spring_absorbs_difference(inner_width: i64, line_width: i64, content_x: i64)
    requires
        0 <= line_width <= inner_width,
        inner_width <= crate::math::PX_LIMIT,
    ensures
        spec_line_extra(inner_width, line_width, 1) == inner_width - line_width,
        spec_effective_width(
            0,
            true,
            (inner_width - line_width) as i64,
        ) == inner_width - line_width,
        spec_effective_width(content_x, false, (inner_width - line_width) as i64) == content_x,
{
    if inner_width > line_width {
        assert(clamp_px(inner_width - line_width) == inner_width - line_width);
        assert(clamp_px(inner_width - line_width) / 1 == inner_width - line_width);
    }
}

/// The commands the chrome of `style` paints at `cursor` with outer size
/// `size` under `tint`: the filled shape and, when visible, its border.
pub open spec fn spec_frame_cmds(style: Style, cursor: Vec2, size: Vec2, tint: Color) -> Seq<
    DrawCmd,
> {
    let bw = spec_effective_border(style) as i64;
    match style.frame_style {
        FrameStyle::NoFrame => Seq::<DrawCmd>::empty(),
        FrameStyle::Rectangle => {
            let fill = DrawCmd::Rectangle {
                pos: Vec2 { x: clamp_px(cursor.x + bw) as i64, y: clamp_px(cursor.y - bw) as i64 },
                size: Vec2 { x: clamp_px(size.x - bw) as i64, y: clamp_px(size.y - bw) as i64 },
                color: crate::draw_api::spec_tinted(tint, style.frame_color),
            };
            if spec_has_border(style) {
                seq![
                    fill,
                    DrawCmd::RectangleBorder {
                        pos: cursor,
                        size: Vec2 {
                            x: clamp_px(size.x - bw) as i64,
                            y: clamp_px(size.y - bw) as i64,
                        },
                        thickness: bw,
                        color: crate::draw_api::spec_tinted(tint, style.border_color),
                    },
                ]
            } else {
                seq![fill]
            }
        },
        FrameStyle::RoundedRectangle(rounding) => {
            let fill = DrawCmd::RectangleRounded {
                pos: Vec2 { x: clamp_px(cursor.x + bw) as i64, y: clamp_px(cursor.y - bw) as i64 },
                size: Vec2 {
                    x: clamp_px(size.x - clamp_px(bw + bw)) as i64,
                    y: clamp_px(size.y - clamp_px(bw + bw)) as i64,
                },
                rounding,
                color: crate::draw_api::spec_tinted(tint, style.frame_color),
            };
            if spec_has_border(style) {
                seq![
                    fill,
                    DrawCmd::RectangleBorderRounded {
                        pos: cursor,
                        size,
                        thickness: bw,
                        rounding,
                        color: crate::draw_api::spec_tinted(tint, style.border_color),
                    },
                ]
            } else {
                seq![fill]
            }
        },
        FrameStyle::Circle => {
            let side = if size.x < size.y {
                size.x
            } else {
                size.y
            };
            let radius = clamp_px(spec_half(side) - bw) as i64;
            let fill = DrawCmd::Circle {
                pos: Vec2 { x: clamp_px(cursor.x + bw) as i64, y: clamp_px(cursor.y - bw) as i64 },
                radius: spec_half(radius) as i64,
                width: radius,
                color: crate::draw_api::spec_tinted(tint, style.frame_color),
            };
            if spec_has_border(style) {
                seq![
                    fill,
                    DrawCmd::Circle {
                        pos: cursor,
                        radius: clamp_px(radius + spec_half(bw)) as i64,
                        width: bw,
                        color: crate::draw_api::spec_tinted(tint, style.border_color),
                    },
                ]
            } else {
                seq![fill]
            }
        },
    }
}

/// Paints the chrome the style asks for at `cursor` with outer size
/// `size`: the filled shape and, when visible, its border.
pub fn draw_frame(draw: &mut DrawApi, style: &Style, cursor: Vec2, size: Vec2)
    ensures
        final(draw).boxes == old(draw).boxes,
        final(draw).pass == old(draw).pass,
        final(draw).scale == old(draw).scale,
        final(draw).spec_tint() == old(draw).spec_tint(),
        final(draw).cmds@ == old(draw).cmds@ + spec_frame_cmds(
            *style,
            cursor,
            size,
            old(draw).spec_tint(),
        ),
{
    let has_border = style.border_width > 0 && style.border_color.a > 0;
    let bw: i64 = if has_border {
        style.border_width
    } else {
        0
    };
    let ghost expected = spec_frame_cmds(*style, cursor, size, old(draw).spec_tint());
    match style.frame_style {
        FrameStyle::NoFrame => {
            proof {
                assert(draw.cmds@ =~= old(draw).cmds@ + expected);
            }
        },
        FrameStyle::Rectangle => {
            draw.rectangle(
                Vec2 { x: px_add(cursor.x, bw), y: px_sub(cursor.y, bw) },
                Vec2 { x: px_sub(size.x, bw), y: px_sub(size.y, bw) },
                style.frame_color,
            );
            if has_border {
                draw.rectangle_border(
                    cursor,
                    Vec2 { x: px_sub(size.x, bw), y: px_sub(size.y, bw) },
                    bw,
                    style.border_color,
                );
            }
            proof {
                assert(draw.cmds@ =~= old(draw).cmds@ + expected);
            }
        },
        FrameStyle::RoundedRectangle(rounding) => {
            draw.rectangle_rounded(
                Vec2 { x: px_add(cursor.x, bw), y: px_sub(cursor.y, bw) },
                Vec2 { x: px_sub(size.x, px_add(bw, bw)), y: px_sub(size.y, px_add(bw, bw)) },
                rounding,
                style.frame_color,
            );
            if has_border {
                draw.rectangle_border_rounded(cursor, size, bw, rounding, style.border_color);
            }
            proof {
                assert(draw.cmds@ =~= old(draw).cmds@ + expected);
            }
        },
        FrameStyle::Circle => {
            let side = if size.x < size.y {
                size.x
            } else {
                size.y
            };
            let radius = px_sub(half(side), bw);
            draw.circle(
                Vec2 { x: px_add(cursor.x, bw), y: px_sub(cursor.y, bw) },
                half(radius),
                radius,
                style.frame_color,
            );
            if has_border {
                draw.circle(cursor, px_add(radius, half(bw)), bw, style.border_color);
            }
            proof {
                assert(draw.cmds@ =~= old(draw).cmds@ + expected);
            }
        },
    }
}

/// Half of a pixel quantity, with negative sizes treated as empty.
pub open spec fn spec_half_int(v: int) -> int {
    if v >= 0 {
        v / 2
    } else {
        0
    }
}

/// The horizontal room inside a container: its final width minus the
/// border extra on both sides.
pub open spec fn spec_inner_width(total_size: Vec2, be: Vec2) -> int {
    clamp_px(total_size.x - clamp_px(be.x + be.x))
}

/// The width a line spans after flex distribution: the whole inner width
/// when the line has flex elements and slack, its measured width otherwise.
pub open spec fn spec_line_w_eff(inner_width: int, line: Line) -> int {
    if spec_flex_count(line.elements@) > 0 && inner_width > line.size.x {
        inner_width
    } else {
        line.size.x as int
    }
}

/// Where a line's first element starts horizontally, by the container's
/// alignment.
pub open spec fn spec_line_x0(style: Style, total_size: Vec2, be: Vec2, w_eff: int) -> int {
    match style.align {
        Some(Align::Right) => clamp_px(clamp_px(total_size.x - w_eff) - be.x),
        Some(Align::Center) => clamp_px(spec_half_int(total_size.x as int) - spec_half_int(w_eff)),
        _ => be.x as int,
    }
}

/// The pen's horizontal position after the given elements of a line have
/// been placed: each advances it by its bounding width plus its flex share.
pub open spec fn spec_cursor_x_after(elements: Seq<Element>, x0: int, extra_per: i64) -> int
    decreases elements.len(),
{
    if elements.len() == 0 {
        x0
    } else {
        clamp_px(
            spec_cursor_x_after(elements.drop_last(), x0, extra_per) + clamp_px(
                spec_bounding_width(elements.last()) + (if elements.last().flex_x {
                    extra_per as int
                } else {
                    0
                }),
            ),
        )
    }
}

/// The pen's vertical position after the given lines have been painted:
/// it starts below the border extra and descends by each line's height.
pub open spec fn spec_cursor_y_before(lines: Seq<Line>, be_y: i64) -> int
    decreases lines.len(),
{
    if lines.len() == 0 {
        clamp_px(0 - be_y)
    } else {
        clamp_px(spec_cursor_y_before(lines.drop_last(), be_y) - lines.last().size.y)
    }
}

/// Whether every line is empty of elements.
pub open spec fn spec_rows_empty(lines: Seq<Line>) -> bool {
    forall|j: int| 0 <= j < lines.len() ==> (#[trigger] lines[j]).elements@.len() == 0
}

/// Where a container's chrome is painted: the cursor pulled back out of
/// the padding.
pub open spec fn spec_chrome_cursor(style: Style, parent_cursor: Vec2) -> Vec2 {
    Vec2 {
        x: clamp_px(parent_cursor.x - style.padding.left) as i64,
        y: clamp_px(parent_cursor.y + style.padding.top) as i64,
    }
}

/// The chrome's outer size: the content size plus the padding.
pub open spec fn spec_chrome_size(style: Style, total_size: Vec2) -> Vec2 {
    Vec2 {
        x: clamp_px(total_size.x + style.padding.spec_width()) as i64,
        y: clamp_px(total_size.y + style.padding.spec_height()) as i64,
    }
}

/// The hit boxes the foreground pass records while painting `el` at
/// `parent_cursor` with final size `total_size`: for a container, the
/// boxes of its elements in paint order; leaves record none of their own.
pub open spec fn spec_boxes_of(el: Element, parent_cursor: Vec2, total_size: Vec2) -> Seq<
    (Id, BoundingBox),
>
    decreases el, 0int,
{
    match el.kind {
        ElementKind::Blank => Seq::<(Id, BoundingBox)>::empty(),
        ElementKind::Canvas(_) => Seq::<(Id, BoundingBox)>::empty(),
        ElementKind::Container(c) => spec_boxes_of_lines(
            c.lines@,
            el.style,
            el.border_extra,
            parent_cursor,
            total_size,
        ),
    }
}

/// The hit boxes a container's lines record, top line first.
pub open spec fn spec_boxes_of_lines(
    lines: Seq<Line>,
    style: Style,
    be: Vec2,
    parent_cursor: Vec2,
    total_size: Vec2,
) -> Seq<(Id, BoundingBox)>
    decreases lines, 3int,
{
    if lines.len() == 0 {
        Seq::<(Id, BoundingBox)>::empty()
    } else {
        let line = lines.last();
        let iw = spec_inner_width(total_size, be);
        let ep = spec_line_extra(iw as i64, line.size.x, spec_flex_count(line.elements@));
        let x0 = spec_line_x0(style, total_size, be, spec_line_w_eff(iw, line));
        spec_boxes_of_lines(lines.drop_last(), style, be, parent_cursor, total_size)
            + spec_boxes_of_line(
            line.elements@,
            x0,
            spec_cursor_y_before(lines.drop_last(), be.y),
            line.size.y,
            ep as i64,
            parent_cursor,
        )
    }
}

/// The hit boxes one line's elements record, left to right.
pub open spec fn spec_boxes_of_line(
    elements: Seq<Element>,
    x0: int,
    cursor_y: int,
    line_h: i64,
    extra_per: i64,
    parent_cursor: Vec2,
) -> Seq<(Id, BoundingBox)>
    decreases elements, 2int,
{
    if elements.len() == 0 {
        Seq::<(Id, BoundingBox)>::empty()
    } else {
        spec_boxes_of_line(
            elements.drop_last(),
            x0,
            cursor_y,
            line_h,
            extra_per,
            parent_cursor,
        ) + spec_child_boxes(
            elements.last(),
            spec_cursor_x_after(elements.drop_last(), x0, extra_per),
            cursor_y,
            line_h,
            extra_per,
            parent_cursor,
        )
    }
}

/// The hit boxes one element records: its own `(id, rect)` when it carries
/// an id — the rect §4.4's painting paragraph fixes from cursor, margins,
/// paddings, vertical alignment and flex share — followed by the boxes of
/// its own content.
pub open spec fn spec_child_boxes(
    child: Element,
    cursor_x: int,
    cursor_y: int,
    line_h: i64,
    extra_per: i64,
    parent_cursor: Vec2,
) -> Seq<(Id, BoundingBox)>
    decreases child, 1int,
{
    let content_height = clamp_px(
        clamp_px(line_h - child.style.margin.spec_height()) - child.style.padding.spec_height(),
    );
    let align_y: int = if child.flex_y {
        0
    } else {
        match child.style.vert_align {
            VertAlign::Top => 0,
            VertAlign::Bottom => clamp_px(child.content_box.y - content_height),
            VertAlign::Center => clamp_px(
                spec_half_int(child.content_box.y as int) - spec_half_int(content_height),
            ),
        }
    };
    let local_x = clamp_px(
        clamp_px(
            cursor_x + clamp_px(child.style.padding.left + child.style.margin.left),
        ) + 0,
    );
    let local_y = clamp_px(
        clamp_px(
            clamp_px(cursor_y + align_y) - clamp_px(
                child.style.padding.top + child.style.margin.top,
            ),
        ) + 0,
    );
    let ec = Vec2 {
        x: clamp_px(parent_cursor.x + local_x) as i64,
        y: clamp_px(parent_cursor.y + local_y) as i64,
    };
    let es = Vec2 {
        x: spec_effective_width(child.content_box.x, child.flex_x, extra_per) as i64,
        y: if child.flex_y {
            content_height as i64
        } else {
            child.content_box.y
        },
    };
    (match child.id {
        Some(id) => seq![(id, BoundingBox { top_left: ec, size: es })],
        None => Seq::<(Id, BoundingBox)>::empty(),
    }) + spec_boxes_of(child, ec, es)
}

proof fn lemma_prefix_trans<T>(a: Seq<T>, b: Seq<T>, c: Seq<T>)
    requires
        b.len() >= a.len(),
        b.take(a.len() as int) == a,
        c.len() >= b.len(),
        c.take(b.len() as int) == b,
    ensures
        c.len() >= a.len(),
        c.take(a.len() as int) == a,
{
    assert(c.take(a.len() as int) =~= a);
}

/// Paints one leaf's content at `cursor` with effective size `size`.
fn paint_canvas(draw: &mut DrawApi, kind: &CanvasKind, style: &Style, cursor: Vec2, size: Vec2)
    ensures
        final(draw).boxes == old(draw).boxes,
        final(draw).pass == old(draw).pass,
        final(draw).scale == old(draw).scale,
        final(draw).spec_tint() == old(draw).spec_tint(),
{
    match kind {
        CanvasKind::TextRun { text, color, font, text_height } => {
            draw.text(text.as_str(), cursor, size, *text_height, Align::Center, *color, *font);
        },
        CanvasKind::Rect { color } => {
            draw.rectangle(cursor, size, *color);
        },
        CanvasKind::RoundedRect { rounding, color } => {
            draw.rectangle_rounded(cursor, size, *rounding, *color);
        },
        CanvasKind::Separator { color } => {
            let middle = px_add(cursor.x, half(size.x));
            let start = cursor.y;
            let end = px_sub(cursor.y, size.y);
            let width = if size.x >= 0 {
                div_nonneg(size.x, 10)
            } else {
                0
            };
            draw.line(
                Vec2 { x: middle, y: start },
                Vec2 { x: middle, y: end },
                width,
                *color,
            );
        },
        CanvasKind::ImageBlit { image, tint } => {
            match tint {
                Some(t) => {
                    let saved = draw.tint;
                    draw.set_tint_internal(*t);
                    draw.image(cursor, size, image.clone());
                    draw.set_tint_internal(saved);
                },
                None => {
                    draw.image(cursor, size, image.clone());
                },
            }
        },
        CanvasKind::TextEditView {
            text,
            text_height,
            text_color,
            font,
            before_cursor,
            selection,
            caret_visible,
        } => {
            let th = *text_height;
            let text_y = px_sub(
                px_add(px_sub(cursor.y, half(size.y)), half(th)),
                if th >= 0 {
                    div_nonneg(th, 20)
                } else {
                    0
                },
            );
            draw.text(
                text.as_str(),
                Vec2 { x: cursor.x, y: text_y },
                Vec2 { x: size.x, y: th },
                th,
                Align::Left,
                *text_color,
                *font,
            );
            let band_y = px_add(
                px_add(px_sub(cursor.y, half(size.y)), half(th)),
                if th >= 0 {
                    div_nonneg(th, 20)
                } else {
                    0
                },
            );
            if *caret_visible {
                draw.rectangle(
                    Vec2 { x: px_add(cursor.x, *before_cursor), y: band_y },
                    Vec2 { x: 2, y: th },
                    *text_color,
                );
            }
            match selection {
                Some((before_w, sel_w)) => {
                    draw.rectangle(
                        Vec2 { x: px_add(cursor.x, *before_w), y: band_y },
                        Vec2 { x: *sel_w, y: th },
                        Color { r: 0, g: 0, b: 255, a: 51 },
                    );
                },
                None => {},
            }
        },
    }
}

/// The pen's vertical position after lines with the given sizes.
pub open spec fn spec_cursor_y_rows(sizes: Seq<Vec2>, be_y: i64) -> int
    decreases sizes.len(),
{
    if sizes.len() == 0 {
        clamp_px(0 - be_y)
    } else {
        clamp_px(spec_cursor_y_rows(sizes.drop_last(), be_y) - sizes.last().y)
    }
}

/// As `spec_boxes_of_lines`, with each line given as its element sequence
/// and its measured size: the form a container's closing contract speaks
/// in.
pub open spec fn spec_boxes_of_rows(
    rows: Seq<Seq<Element>>,
    sizes: Seq<Vec2>,
    style: Style,
    be: Vec2,
    parent_cursor: Vec2,
    total_size: Vec2,
) -> Seq<(Id, BoundingBox)>
    decreases rows.len(),
{
    if rows.len() == 0 {
        Seq::<(Id, BoundingBox)>::empty()
    } else {
        let row = rows.last();
        let size = sizes.last();
        let iw = spec_inner_width(total_size, be);
        let ep = spec_line_extra(iw as i64, size.x, spec_flex_count(row));
        let weff = if spec_flex_count(row) > 0 && iw > size.x {
            iw
        } else {
            size.x as int
        };
        let x0 = spec_line_x0(style, total_size, be, weff);
        spec_boxes_of_rows(rows.drop_last(), sizes.drop_last(), style, be, parent_cursor, total_size)
            + spec_boxes_of_line(
            row,
            x0,
            spec_cursor_y_rows(sizes.drop_last(), be.y),
            size.y,
            ep as i64,
            parent_cursor,
        )
    }
}

/// The two box forms agree: painting lines records the same boxes whether
/// the lines are given as `Line` values or as element rows with sizes.
pub proof fn lemma_boxes_rows_agree(
    lines: Seq<Line>,
    style: Style,
    be: Vec2,
    parent_cursor: Vec2,
    total_size: Vec2,
)
    ensures
        spec_boxes_of_lines(lines, style, be, parent_cursor, total_size) == spec_boxes_of_rows(
            lines.map_values(|l: Line| l.elements@),
            lines.map_values(|l: Line| l.size),
            style,
            be,
            parent_cursor,
            total_size,
        ),
        spec_cursor_y_before(lines, be.y) == spec_cursor_y_rows(
            lines.map_values(|l: Line| l.size),
            be.y,
        ),
    decreases lines.len(),
{
    let rows = lines.map_values(|l: Line| l.elements@);
    let sizes = lines.map_values(|l: Line| l.size);
    if lines.len() == 0 {
        assert(rows.len() == 0);
        assert(sizes.len() == 0);
    } else {
        lemma_boxes_rows_agree(lines.drop_last(), style, be, parent_cursor, total_size);
        assert(rows.drop_last() =~= lines.drop_last().map_values(|l: Line| l.elements@));
        assert(sizes.drop_last() =~= lines.drop_last().map_values(|l: Line| l.size));
        assert(rows.last() == lines.last().elements@);
        assert(sizes.last() == lines.last().size);
    }
}

/// Paints `el` at `parent_cursor` with final size `total_size`.
///
/// In pass 0 only shadow chrome is emitted and no hit box is recorded; in
/// pass 1 a container runs its own shadow and foreground passes over its
/// lines, distributing horizontal slack to flex children, aligning lines
/// and elements, recording exactly the `(id, rect)` pairs `spec_boxes_of`
/// names, and recursing into children with their final sizes.
pub fn paint_element(draw: &mut DrawApi, el: &Element, parent_cursor: Vec2, total_size: Vec2)
    ensures
        final(draw).pass == old(draw).pass,
        final(draw).boxes@.len() >= old(draw).boxes@.len(),
        final(draw).boxes@.take(old(draw).boxes@.len() as int) == old(draw).boxes@,
        old(draw).pass == 0 ==> final(draw).boxes == old(draw).boxes,
        old(draw).pass == 1 ==> final(draw).boxes@ == old(draw).boxes@ + spec_boxes_of(
            *el,
            parent_cursor,
            total_size,
        ),
        (old(draw).pass == 0 && el.kind is Container && el.style.shadow_dir is None)
            ==> final(draw).cmds == old(draw).cmds,
        (old(draw).pass == 0 && el.kind is Container)
            ==> final(draw).spec_tint() == (Color { r: 255, g: 255, b: 255, a: 255 }),
        ({
            let chrome_only = old(draw).pass == 1 && (el.kind matches ElementKind::Container(c)
                && !c.hide_frame && spec_rows_empty(c.lines@));
            chrome_only ==> final(draw).cmds@ == old(draw).cmds@ + spec_frame_cmds(
                el.style,
                spec_chrome_cursor(el.style, parent_cursor),
                spec_chrome_size(el.style, total_size),
                old(draw).spec_tint(),
            )
        }),
    decreases *el,
{
    match &el.kind {
        ElementKind::Blank => {
            proof {
                assert(old(draw).boxes@ + spec_boxes_of(*el, parent_cursor, total_size) =~= old(
                    draw,
                ).boxes@);
                assert(draw.boxes@.take(old(draw).boxes@.len() as int) =~= old(draw).boxes@);
            }
        },
        ElementKind::Canvas(kind) => {
            paint_canvas(draw, kind, &el.style, parent_cursor, total_size);
            proof {
                assert(old(draw).boxes@ + spec_boxes_of(*el, parent_cursor, total_size) =~= old(
                    draw,
                ).boxes@);
                assert(draw.boxes@.take(old(draw).boxes@.len() as int) =~= old(draw).boxes@);
            }
        },
        ElementKind::Container(c) => {
            let pass = draw.pass();
            if pass == 0 {
                draw.set_tint_internal(el.style.shadow_color);
                draw.set_scale(el.style.shadow_scale);
            }
            let shadow_chrome = pass == 1 || (pass == 0 && el.style.shadow_dir.is_some());
            if !c.hide_frame && shadow_chrome {
                let chrome_cursor = Vec2 {
                    x: px_sub(parent_cursor.x, el.style.padding.left),
                    y: px_add(parent_cursor.y, el.style.padding.top),
                };
                let chrome_size = Vec2 {
                    x: px_add(total_size.x, el.style.padding.width()),
                    y: px_add(total_size.y, el.style.padding.height()),
                };
                draw_frame(draw, &el.style, chrome_cursor, chrome_size);
            }
            if pass == 0 {
                draw.set_tint_internal(Color { r: 255, g: 255, b: 255, a: 255 });
                draw.set_scale(100);
            }
            if pass == 1 {
                let ghost entry_boxes = draw.boxes@;
                let ghost chrome_hypo = !c.hide_frame && spec_rows_empty(c.lines@);
                let ghost entry_cmds = draw.cmds@;
                let ghost all_boxes = spec_boxes_of_lines(
                    c.lines@,
                    el.style,
                    el.border_extra,
                    parent_cursor,
                    total_size,
                );
                proof {
                    assert(decreases_to!(*el => **c));
                }
                let mut inner_pass: i32 = 0;
                while inner_pass < 2
                    invariant
                        0 <= inner_pass <= 2,
                        draw.boxes@.len() >= entry_boxes.len(),
                        draw.boxes@.take(entry_boxes.len() as int) == entry_boxes,
                        inner_pass <= 1 ==> draw.boxes@ == entry_boxes,
                        inner_pass == 2 ==> draw.boxes@ == entry_boxes + all_boxes,
                        chrome_hypo ==> draw.cmds@ == entry_cmds,
                        chrome_hypo ==> spec_rows_empty(c.lines@),
                        all_boxes == spec_boxes_of_lines(
                            c.lines@,
                            el.style,
                            el.border_extra,
                            parent_cursor,
                            total_size,
                        ),
                        decreases_to!(*el => **c),
                    decreases 2 - inner_pass,
                {
                    let ghost pass_boxes = draw.boxes@;
                    draw.set_pass(inner_pass);
                    let be = el.border_extra;
                    let inner_width = px_sub(total_size.x, px_add(be.x, be.x));
                    let mut cursor_y: i64 = px_sub(0, be.y);
                    let mut li: usize = 0;
                    proof {
                        assert(c.lines@.take(0) =~= Seq::<Line>::empty());
                    }
                    while li < c.lines.len()
                        invariant
                            draw.pass == inner_pass,
                            0 <= inner_pass < 2,
                            draw.boxes@.len() >= pass_boxes.len(),
                            draw.boxes@.take(pass_boxes.len() as int) == pass_boxes,
                            inner_pass == 0 ==> draw.boxes@ == pass_boxes,
                            chrome_hypo ==> draw.cmds@ == entry_cmds,
                            chrome_hypo ==> spec_rows_empty(c.lines@),
                            be == el.border_extra,
                            inner_width == spec_inner_width(total_size, be),
                            li <= c.lines@.len(),
                            inner_pass == 1 ==> draw.boxes@ == pass_boxes + spec_boxes_of_lines(
                                c.lines@.take(li as int),
                                el.style,
                                be,
                                parent_cursor,
                                total_size,
                            ),
                            cursor_y == spec_cursor_y_before(c.lines@.take(li as int), be.y),
                            decreases_to!(*el => **c),
                        decreases c.lines.len() - li,
                    {
                        let ghost line_boxes = draw.boxes@;
                        let ghost cursor_y0 = cursor_y as int;
                        let line = &c.lines[li];
                        proof {
                            assert(decreases_to!(**c => c.lines@[li as int]));
                        }
                        let flex_count = count_flex(&line.elements);
                        let extra_per: i64 = line_extra_per_flex(
                            inner_width,
                            line.size.x,
                            flex_count,
                        );
                        let flex_line = flex_count > 0;
                        let line_w_eff: i64 = if flex_line && inner_width > line.size.x {
                            inner_width
                        } else {
                            line.size.x
                        };
                        proof {
                            assert(line_w_eff == spec_line_w_eff(
                                spec_inner_width(total_size, be),
                                *line,
                            ));
                        }
                        let mut cursor_x: i64 = match el.style.align {
                            Some(Align::Right) => px_sub(
                                px_sub(total_size.x, line_w_eff),
                                be.x,
                            ),
                            Some(Align::Center) => px_sub(
                                half(total_size.x),
                                half(line_w_eff),
                            ),
                            _ => be.x,
                        };
                        let ghost x0 = cursor_x as int;
                        proof {
                            assert(x0 == spec_line_x0(
                                el.style,
                                total_size,
                                be,
                                spec_line_w_eff(spec_inner_width(total_size, be), *line),
                            ));
                            assert(line.elements@.take(0) =~= Seq::<Element>::empty());
                        }
                        let line_h = line.size.y;
                        let mut ei: usize = 0;
                        while ei < line.elements.len()
                            invariant
                                draw.pass == inner_pass,
                                0 <= inner_pass < 2,
                                draw.boxes@.len() >= line_boxes.len(),
                                draw.boxes@.take(line_boxes.len() as int) == line_boxes,
                                inner_pass == 0 ==> draw.boxes@ == line_boxes,
                                chrome_hypo ==> draw.cmds@ == entry_cmds,
                                chrome_hypo ==> line.elements@.len() == 0,
                                ei <= line.elements@.len(),
                                line_h == line.size.y,
                                extra_per == spec_line_extra(
                                    spec_inner_width(total_size, be) as i64,
                                    line.size.x,
                                    spec_flex_count(line.elements@) as int,
                                ),
                                cursor_y == cursor_y0,
                                cursor_x == spec_cursor_x_after(
                                    line.elements@.take(ei as int),
                                    x0,
                                    extra_per,
                                ),
                                inner_pass == 1 ==> draw.boxes@ == line_boxes
                                    + spec_boxes_of_line(
                                    line.elements@.take(ei as int),
                                    x0,
                                    cursor_y0,
                                    line_h,
                                    extra_per,
                                    parent_cursor,
                                ),
                                decreases_to!(*el => *line),
                            decreases line.elements.len() - ei,
                        {
                            let ghost el_boxes = draw.boxes@;
                            let child = &line.elements[ei];
                            proof {
                                assert(decreases_to!(*line => line.elements@[ei as int]));
                            }
                            let child_bw = bounding_width(child);
                            let content_height = px_sub(
                                px_sub(line_h, child.style.margin.height()),
                                child.style.padding.height(),
                            );
                            let align_y: i64 = if child.flex_y {
                                0
                            } else {
                                match child.style.vert_align {
                                    VertAlign::Top => 0,
                                    VertAlign::Bottom => px_sub(
                                        child.content_box.y,
                                        content_height,
                                    ),
                                    VertAlign::Center => px_sub(
                                        half(child.content_box.y),
                                        half(content_height),
                                    ),
                                }
                            };
                            let shadow_shift: Vec2 = if inner_pass == 0 {
                                match child.style.shadow_dir {
                                    Some(d) => d,
                                    None => Vec2 { x: 0, y: 0 },
                                }
                            } else {
                                Vec2 { x: 0, y: 0 }
                            };
                            let local_cursor = Vec2 {
                                x: px_add(
                                    px_add(
                                        cursor_x,
                                        px_add(
                                            child.style.padding.left,
                                            child.style.margin.left,
                                        ),
                                    ),
                                    shadow_shift.x,
                                ),
                                y: px_add(
                                    px_sub(
                                        px_add(cursor_y, align_y),
                                        px_add(child.style.padding.top, child.style.margin.top),
                                    ),
                                    shadow_shift.y,
                                ),
                            };
                            if inner_pass == 0 {
                                draw.set_tint_internal(child.style.shadow_color);
                                draw.set_scale(child.style.shadow_scale);
                            }
                            if inner_pass == 1 || (inner_pass == 0
                                && child.style.shadow_dir.is_some()) {
                                let element_cursor = Vec2 {
                                    x: px_add(parent_cursor.x, local_cursor.x),
                                    y: px_add(parent_cursor.y, local_cursor.y),
                                };
                                let eff_w = effective_width(
                                    child.content_box.x,
                                    child.flex_x,
                                    extra_per,
                                );
                                let element_size = Vec2 {
                                    x: eff_w,
                                    y: if child.flex_y {
                                        content_height
                                    } else {
                                        child.content_box.y
                                    },
                                };
                                if inner_pass == 1 {
                                    match child.id {
                                        Some(id) => {
                                            draw.push_box(
                                                id,
                                                BoundingBox {
                                                    top_left: element_cursor,
                                                    size: element_size,
                                                },
                                            );
                                        },
                                        None => {},
                                    }
                                }
                                let ghost mid_boxes = draw.boxes@;
                                proof {
                                    assert(mid_boxes.take(el_boxes.len() as int) =~= el_boxes);
                                }
                                paint_element(draw, child, element_cursor, element_size);
                                proof {
                                    lemma_prefix_trans(el_boxes, mid_boxes, draw.boxes@);
                                    if inner_pass == 1 {
                                        assert(draw.boxes@ =~= el_boxes + spec_child_boxes(
                                            *child,
                                            cursor_x as int,
                                            cursor_y0,
                                            line_h,
                                            extra_per,
                                            parent_cursor,
                                        ));
                                    }
                                }
                            }
                            if inner_pass == 0 {
                                draw.set_tint_internal(
                                    Color { r: 255, g: 255, b: 255, a: 255 },
                                );
                                draw.set_scale(100);
                            }
                            proof {
                                lemma_prefix_trans(line_boxes, el_boxes, draw.boxes@);
                                assert(line.elements@.take(ei + 1).drop_last() =~= line.elements@
                                    .take(ei as int));
                                assert(line.elements@.take(ei + 1).last() == line.elements@[
                                    ei as int]);
                                if inner_pass == 1 {
                                    assert(draw.boxes@ =~= line_boxes + spec_boxes_of_line(
                                        line.elements@.take(ei + 1),
                                        x0,
                                        cursor_y0,
                                        line_h,
                                        extra_per,
                                        parent_cursor,
                                    ));
                                }
                            }
                            cursor_x = px_add(
                                cursor_x,
                                px_add(
                                    child_bw,
                                    if child.flex_x {
                                        extra_per
                                    } else {
                                        0
                                    },
                                ),
                            );
                            ei = ei + 1;
                        }
                        proof {
                            lemma_prefix_trans(pass_boxes, line_boxes, draw.boxes@);
                            assert(line.elements@.take(line.elements@.len() as int) =~= line
                                .elements@);
                            assert(c.lines@.take(li + 1).drop_last() =~= c.lines@.take(li as int));
                            assert(c.lines@.take(li + 1).last() == c.lines@[li as int]);
                            if inner_pass == 1 {
                                assert(draw.boxes@ =~= pass_boxes + spec_boxes_of_lines(
                                    c.lines@.take(li + 1),
                                    el.style,
                                    be,
                                    parent_cursor,
                                    total_size,
                                ));
                            }
                        }
                        cursor_y = px_sub(cursor_y, line_h);
                        li = li + 1;
                    }
                    proof {
                        lemma_prefix_trans(entry_boxes, pass_boxes, draw.boxes@);
                        assert(c.lines@.take(c.lines@.len() as int) =~= c.lines@);
                    }
                    inner_pass = inner_pass + 1;
                }
                draw.set_pass(1);
                proof {
                    assert(draw.boxes@.take(old(draw).boxes@.len() as int) =~= old(draw).boxes@);
                    if chrome_hypo {
                        assert(draw.cmds@ =~= old(draw).cmds@ + spec_frame_cmds(
                            el.style,
                            spec_chrome_cursor(el.style, parent_cursor),
                            spec_chrome_size(el.style, total_size),
                            old(draw).spec_tint(),
                        ));
                    }
                }
            } else {
                proof {
                    assert(draw.boxes@.take(old(draw).boxes@.len() as int) =~= old(draw).boxes@);
                }
            }
        },
    }
}

} // verus!

//! The per-frame layout tree and its measurement pass.
//!
//! Elements live for one frame.  A leaf carries what it paints; a container
//! carries its measured lines.  Measurement folds saturating pixel sums, so
//! the exact summation laws hold whenever the true totals stay inside the
//! coordinate band.

use vstd::prelude::*;
use crate::color::Color;
use crate::id::Id;
use crate::image::Image;
use crate::math::{clamp_px, px_add, px_max_of, Vec2};
use crate::style::{Font, Style};

verus! {

/// What a leaf element paints.
pub enum CanvasKind {
    /// A text run in the given color and font.
    TextRun { text: String, color: Color, font: Font, text_height: i64 },
    /// A filled rectangle.
    Rect { color: Color },
    /// A filled rounded rectangle.
    RoundedRect { rounding: i64, color: Color },
    /// A vertical separator line.
    Separator { color: Color },
    /// An image blit, optionally tinted.
    ImageBlit { image: Image, tint: Option<Color> },
    /// A text-edit widget's view: its text, the caret's pixel offset, the
    /// selection band, and whether the caret is visible this frame.
    TextEditView {
        text: String,
        text_height: i64,
        text_color: Color,
        font: Font,
        before_cursor: i64,
        selection: Option<(i64, i64)>,
        caret_visible: bool,
    },
}

/// A node of the layout tree.
pub enum ElementKind {
    /// Occupies space and paints nothing: spaces, springs, empty areas.
    Blank,
    /// A painting leaf.
    Canvas(CanvasKind),
    /// A closed container with its measured lines.
    Container(Box<Container>),
}

/// A closed container: the lines it laid out and whether its own chrome is
/// suppressed.
pub struct Container {
    pub lines: Vec<Line>,
    pub hide_frame: bool,
}

/// One horizontal row of elements, with its measured size.
pub struct Line {
    pub elements: Vec<Element>,
    pub size: Vec2,
}

/// A node in the per-frame layout tree.
pub struct Element {
    /// The content size, exclusive of margin and padding.
    pub content_box: Vec2,
    /// The id hit testing reports for this element, if any.
    pub id: Option<Id>,
    /// Extra per-axis inset a non-rectangular frame needs.
    pub border_extra: Vec2,
    /// Whether the element absorbs horizontal slack on its line.
    pub flex_x: bool,
    /// Whether the element stretches to its line's height.
    pub flex_y: bool,
    pub style: Style,
    pub kind: ElementKind,
}

/// The horizontal room an element takes on its line: content plus margin
/// plus padding, saturating.
pub open spec fn spec_bounding_width(e: Element) -> int {
    clamp_px(
        clamp_px(e.content_box.x + e.style.margin.spec_width()) + e.style.padding.spec_width(),
    )
}

/// The vertical room an element takes on its line.
pub open spec fn spec_bounding_height(e: Element) -> int {
    clamp_px(
        clamp_px(e.content_box.y + e.style.margin.spec_height()) + e.style.padding.spec_height(),
    )
}

/// The horizontal room an element takes on its line.
pub fn bounding_width(e: &Element) -> (r: i64)
    ensures
        r == spec_bounding_width(*e),
{
    px_add(px_add(e.content_box.x, e.style.margin.width()), e.style.padding.width())
}

/// The vertical room an element takes on its line.
pub fn bounding_height(e: &Element) -> (r: i64)
    ensures
        r == spec_bounding_height(*e),
{
    px_add(px_add(e.content_box.y, e.style.margin.height()), e.style.padding.height())
}

/// A line's width: the saturating sum of its elements' bounding widths,
/// left to right.
pub open spec fn spec_line_width(s: Seq<Element>) -> int
    decreases s.len(),
{
    if s.len() == 0 {
        0
    } else {
        clamp_px(spec_line_width(s.drop_last()) + spec_bounding_width(s.last()))
    }
}

/// A line's height: the largest of its elements' bounding heights.
pub open spec fn spec_line_height(s: Seq<Element>) -> int
    decreases s.len(),
{
    if s.len() == 0 {
        0
    } else {
        let rest = spec_line_height(s.drop_last());
        let h = spec_bounding_height(s.last());
        if h > rest {
            h
        } else {
            rest
        }
    }
}

/// How many elements of a line absorb horizontal slack.
pub open spec fn spec_flex_count(s: Seq<Element>) -> int
    decreases s.len(),
{
    if s.len() == 0 {
        0
    } else {
        spec_flex_count(s.drop_last()) + if s.last().flex_x {
            1int
        } else {
            0int
        }
    }
}

/// Measures one line: the sum of bounding widths and the largest bounding
/// height of its elements.
pub fn measure_line(elements: &Vec<Element>) -> (r: Vec2)
    ensures
        r.x == spec_line_width(elements@),
        r.y == spec_line_height(elements@),
{
    let mut w: i64 = 0;
    let mut h: i64 = 0;
    let mut i: usize = 0;
    while i < elements.len()
        invariant
            i <= elements@.len(),
            w == spec_line_width(elements@.take(i as int)),
            h == spec_line_height(elements@.take(i as int)),
        decreases elements@.len() - i,
    {
        let bw = bounding_width(&elements[i]);
        let bh = bounding_height(&elements[i]);
        w = px_add(w, bw);
        h = px_max_of(h, bh);
        proof {
            assert(elements@.take(i + 1).drop_last() =~= elements@.take(i as int));
            assert(elements@.take(i + 1).last() == elements@[i as int]);
        }
        i = i + 1;
    }
    proof {
        assert(elements@.take(elements@.len() as int) =~= elements@);
    }
    Vec2 { x: w, y: h }
}

/// Counts the flex elements of a line.
pub fn count_flex(elements: &Vec<Element>) -> (n: usize)
    ensures
        n == spec_flex_count(elements@),
        0 <= n <= elements@.len(),
{
    let mut n: usize = 0;
    let mut i: usize = 0;
    while i < elements.len()
        invariant
            i <= elements@.len(),
            n == spec_flex_count(elements@.take(i as int)),
            0 <= n <= i,
        decreases elements@.len() - i,
    {
        if elements[i].flex_x {
            n = n + 1;
        }
        proof {
            assert(elements@.take(i + 1).drop_last() =~= elements@.take(i as int));
            assert(elements@.take(i + 1).last() == elements@[i as int]);
        }
        i = i + 1;
    }
    proof {
        assert(elements@.take(elements@.len() as int) =~= elements@);
    }
    n
}

/// The width a container spans: the largest of its measured line widths.
pub open spec fn spec_total_width(sizes: Seq<Vec2>) -> int
    decreases sizes.len(),
{
    if sizes.len() == 0 {
        0
    } else {
        let rest = spec_total_width(sizes.drop_last());
        if sizes.last().x > rest {
            sizes.last().x as int
        } else {
            rest
        }
    }
}

/// The height a container spans: the saturating sum of its measured line
/// heights.
pub open spec fn spec_total_height(sizes: Seq<Vec2>) -> int
    decreases sizes.len(),
{
    if sizes.len() == 0 {
        0
    } else {
        clamp_px(spec_total_height(sizes.drop_last()) + sizes.last().y)
    }
}

/// A well-formed layout element: sizes and spacings are non-negative.
pub open spec fn spec_elem_sane(e: Element) -> bool {
    &&& 0 <= e.content_box.x
    &&& 0 <= e.content_box.y
    &&& 0 <= e.style.margin.left
    &&& 0 <= e.style.margin.right
    &&& 0 <= e.style.margin.top
    &&& 0 <= e.style.margin.bottom
    &&& 0 <= e.style.padding.left
    &&& 0 <= e.style.padding.right
    &&& 0 <= e.style.padding.top
    &&& 0 <= e.style.padding.bottom
}

/// The exact (unsaturated) horizontal room an element takes: content width
/// plus margin and padding widths.
pub open spec fn spec_plain_width(e: Element) -> int {
    e.content_box.x + e.style.margin.left + e.style.margin.right + e.style.padding.left
        + e.style.padding.right
}

/// The exact (unsaturated) vertical room an element takes.
pub open spec fn spec_plain_height(e: Element) -> int {
    e.content_box.y + e.style.margin.top + e.style.margin.bottom + e.style.padding.top
        + e.style.padding.bottom
}

/// The exact sum of the elements' plain widths.
pub open spec fn spec_plain_line_width(s: Seq<Element>) -> int
    decreases s.len(),
{
    if s.len() == 0 {
        0
    } else {
        spec_plain_line_width(s.drop_last()) + spec_plain_width(s.last())
    }
}

/// The largest of the elements' plain heights.
pub open spec fn spec_plain_line_height(s: Seq<Element>) -> int
    decreases s.len(),
{
    if s.len() == 0 {
        0
    } else {
        let rest = spec_plain_line_height(s.drop_last());
        let h = spec_plain_height(s.last());
        if h > rest {
            h
        } else {
            rest
        }
    }
}

/// The exact sum of plain widths of well-formed elements is non-negative.
pub proof fn lemma_plain_line_width_nonneg(s: Seq<Element>)
    requires
        forall|i: int| 0 <= i < s.len() ==> spec_elem_sane(#[trigger] s[i]),
    ensures
        spec_plain_line_width(s) >= 0,
    decreases s.len(),
{
    if s.len() > 0 {
        assert(forall|i: int|
            0 <= i < s.drop_last().len() ==> spec_elem_sane(#[trigger] s.drop_last()[i]));
        lemma_plain_line_width_nonneg(s.drop_last());
    }
}

/// On a line of well-formed elements whose true total width stays inside
/// the coordinate band, the measured line width is exactly the sum of the
/// children's content, margin and padding widths: saturation never fires.
pub proof fn lemma_line_width_exact(s: Seq<Element>)
    requires
        forall|i: int| 0 <= i < s.len() ==> spec_elem_sane(#[trigger] s[i]),
        spec_plain_line_width(s) <= crate::math::PX_LIMIT,
    ensures
        spec_line_width(s) == spec_plain_line_width(s),
    decreases s.len(),
{
    if s.len() > 0 {
        let rest = s.drop_last();
        let e = s.last();
        assert(forall|i: int| 0 <= i < rest.len() ==> spec_elem_sane(#[trigger] rest[i]));
        lemma_plain_line_width_nonneg(rest);
        assert(spec_plain_width(e) >= 0);
        lemma_line_width_exact(rest);
        assert(spec_bounding_width(e) == spec_plain_width(e));
    }
}

/// On a line of well-formed elements whose tallest child stays inside the
/// coordinate band, the measured line height is exactly the largest of the
/// children's content, margin and padding heights.
pub proof fn lemma_line_height_exact(s: Seq<Element>)
    requires
        forall|i: int| 0 <= i < s.len() ==> spec_elem_sane(#[trigger] s[i]),
        forall|i: int| 0 <= i < s.len() ==> spec_plain_height(#[trigger] s[i]) <= crate::math::PX_LIMIT,
    ensures
        spec_line_height(s) == spec_plain_line_height(s),
    decreases s.len(),
{
    if s.len() > 0 {
        let rest = s.drop_last();
        let e = s.last();
        assert(forall|i: int| 0 <= i < rest.len() ==> spec_elem_sane(#[trigger] rest[i]));
        assert(forall|i: int|
            0 <= i < rest.len() ==> spec_plain_height(#[trigger] rest[i])
                <= crate::math::PX_LIMIT);
        lemma_line_height_exact(rest);
        assert(spec_bounding_height(e) == spec_plain_height(e));
    }
}

/// A measured line height is never negative: it is a maximum over a base
/// of zero.
pub proof fn lemma_line_height_nonneg(s: Seq<Element>)
    ensures
        spec_line_height(s) >= 0,
    decreases s.len(),
{
    if s.len() > 0 {
        lemma_line_height_nonneg(s.drop_last());
    }
}

/// A maximum of plain heights stays below any bound the heights obey.
pub proof fn lemma_plain_line_height_bound(s: Seq<Element>, bound: int)
    requires
        bound >= 0,
        forall|i: int| 0 <= i < s.len() ==> spec_plain_height(#[trigger] s[i]) <= bound,
    ensures
        spec_plain_line_height(s) <= bound,
    decreases s.len(),
{
    if s.len() > 0 {
        let rest = s.drop_last();
        assert(forall|i: int|
            0 <= i < rest.len() ==> spec_plain_height(#[trigger] rest[i]) <= bound);
        lemma_plain_line_height_bound(rest, bound);
    }
}

/// The exact sum of the measured line heights.
pub open spec fn spec_plain_total_height(sizes: Seq<Vec2>) -> int
    decreases sizes.len(),
{
    if sizes.len() == 0 {
        0
    } else {
        spec_plain_total_height(sizes.drop_last()) + sizes.last().y
    }
}

proof fn lemma_plain_total_height_nonneg(sizes: Seq<Vec2>)
    requires
        forall|i: int| 0 <= i < sizes.len() ==> (#[trigger] sizes[i]).y >= 0,
    ensures
        spec_plain_total_height(sizes) >= 0,
    decreases sizes.len(),
{
    if sizes.len() > 0 {
        assert(forall|i: int|
            0 <= i < sizes.drop_last().len() ==> (#[trigger] sizes.drop_last()[i]).y >= 0);
        lemma_plain_total_height_nonneg(sizes.drop_last());
    }
}

/// When every line height is non-negative and the true total stays inside
/// the coordinate band, a container's measured height is exactly the sum of
/// its line heights.
pub proof fn lemma_total_height_exact(sizes: Seq<Vec2>)
    requires
        forall|i: int| 0 <= i < sizes.len() ==> (#[trigger] sizes[i]).y >= 0,
        spec_plain_total_height(sizes) <= crate::math::PX_LIMIT,
    ensures
        spec_total_height(sizes) == spec_plain_total_height(sizes),
    decreases sizes.len(),
{
    if sizes.len() > 0 {
        let rest = sizes.drop_last();
        assert(forall|i: int| 0 <= i < rest.len() ==> (#[trigger] rest[i]).y >= 0);
        lemma_plain_total_height_nonneg(rest);
        lemma_total_height_exact(rest);
    }
}

} // verus!

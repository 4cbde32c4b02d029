//! The builder handed to frame callbacks.
//!
//! A `Ui` records elements into its current line; `next_line` seals the
//! line.  Nested containers are built with `child`, filled, and closed with
//! one of the `end_*` functions, which measure the child's lines and push
//! the whole container as a single element into the parent's current line.

use vstd::prelude::*;
use crate::color::{held_color, hover_color, Color};
use crate::draw_api::spec_text_size;
use crate::element::{
    count_flex, measure_line, spec_flex_count, spec_line_height, spec_line_width,
    spec_total_height, spec_total_width, CanvasKind, Container, Element, ElementKind, Line,
};
use crate::frame::{border_extra, spec_border_extra};
use crate::id::Id;
use crate::image::Image;
use crate::math::{clamp_px, px_add, px_max_of, px_sub, Vec2, PX_LIMIT};
use crate::response::{spec_idle_response, Response};
use crate::style::{Font, Style};

verus! {

/// A length capped into the coordinate band.
pub open spec fn spec_len_px(n: nat) -> int {
    if n > PX_LIMIT {
        PX_LIMIT as int
    } else {
        n as int
    }
}

fn len_px(n: usize) -> (r: i64)
    ensures
        r == spec_len_px(n as nat),
{
    if (n as u64) > (PX_LIMIT as u64) {
        PX_LIMIT
    } else {
        n as i64
    }
}

/// The response recorded under the id with digest `h`, or the idle
/// response when the previous frame recorded none.
pub open spec fn spec_lookup_response(rs: Seq<(Id, Response)>, h: u64) -> Response
    decreases rs.len(),
{
    if rs.len() == 0 {
        spec_idle_response()
    } else if rs.first().0.spec_hash() == h {
        rs.first().1
    } else {
        spec_lookup_response(rs.drop_first(), h)
    }
}

fn copy_responses(rs: &Vec<(Id, Response)>) -> (r: Vec<(Id, Response)>)
    ensures
        r@ == rs@,
{
    let mut out: Vec<(Id, Response)> = Vec::new();
    let mut i: usize = 0;
    while i < rs.len()
        invariant
            i <= rs@.len(),
            out@ == rs@.take(i as int),
        decreases rs@.len() - i,
    {
        out.push(rs[i]);
        proof {
            assert(rs@.take(i + 1).drop_last() =~= rs@.take(i as int));
            assert(out@ =~= rs@.take(i + 1));
        }
        i = i + 1;
    }
    proof {
        assert(rs@.take(rs@.len() as int) =~= rs@);
    }
    out
}

/// The builder a frame callback records elements into.
pub struct Ui {
    /// The style new elements take.
    pub style: Style,
    /// The line being built.
    pub current_line: Vec<Element>,
    /// The lines already sealed.
    pub lines: Vec<Line>,
    /// The id all children of this container derive theirs from.
    pub parent_id: Id,
    /// The responses resolved from the previous frame's hit boxes.
    pub responses: Vec<(Id, Response)>,
}

/// The sealed lines of a closing container: the sealed lines' elements,
/// then the current line; a trailing empty line is dropped unless it is the
/// only one.
pub open spec fn spec_sealed(child: Ui) -> Seq<Seq<Element>> {
    let all = child.lines@.map_values(|l: Line| l.elements@).push(child.current_line@);
    if all.len() > 1 && all.last().len() == 0 {
        all.drop_last()
    } else {
        all
    }
}

/// The measured size of each sealed line.
pub open spec fn spec_measured_sizes(s: Seq<Seq<Element>>) -> Seq<Vec2> {
    s.map_values(
        |es: Seq<Element>| Vec2 { x: spec_line_width(es) as i64, y: spec_line_height(es) as i64 },
    )
}

/// The natural (content) size of a closing container: widest line by the
/// sum of line heights.
pub open spec fn spec_natural_size(child: Ui) -> Vec2 {
    let sizes = spec_measured_sizes(spec_sealed(child));
    Vec2 { x: spec_total_width(sizes) as i64, y: spec_total_height(sizes) as i64 }
}

/// Whether any sealed line holds a flex element.
pub open spec fn spec_any_flex(child: Ui) -> bool {
    exists|i: int|
        0 <= i < spec_sealed(child).len() && spec_flex_count(#[trigger] spec_sealed(child)[i]) > 0
}

/// The content box a closing container reports to its parent: the natural
/// size plus the frame's border extra on both sides, then overridden by the
/// requested fixed size on each positive axis.
pub open spec fn spec_container_box(child: Ui, hide_frame: bool, fixed_size: Option<Vec2>) -> Vec2 {
    let natural = spec_natural_size(child);
    let be = if hide_frame {
        Vec2 { x: 0, y: 0 }
    } else {
        spec_border_extra(child.style, natural)
    };
    let with_be = Vec2 {
        x: clamp_px(natural.x + clamp_px(be.x + be.x)) as i64,
        y: clamp_px(natural.y + clamp_px(be.y + be.y)) as i64,
    };
    match fixed_size {
        Some(fs) => Vec2 {
            x: if fs.x > 0 {
                fs.x
            } else {
                with_be.x
            },
            y: if fs.y > 0 {
                fs.y
            } else {
                with_be.y
            },
        },
        None => with_be,
    }
}

/// The extra height the last line receives when a fixed height larger
/// than the container's own height was asked for.
pub open spec fn spec_fixed_stretch(child: Ui, hide_frame: bool, fixed_size: Option<Vec2>) -> int {
    let natural = spec_natural_size(child);
    let be = if hide_frame {
        Vec2 { x: 0, y: 0 }
    } else {
        spec_border_extra(child.style, natural)
    };
    let with_be_y = clamp_px(natural.y + clamp_px(be.y + be.y));
    match fixed_size {
        Some(fs) => if fs.y > 0 && fs.y > with_be_y {
            clamp_px(fs.y - with_be_y)
        } else {
            0
        },
        None => 0,
    }
}

/// The size a sealed line carries after the container closes: its measured
/// size, with the last line stretched to reach a larger fixed height.
pub open spec fn spec_final_line_size(
    child: Ui,
    hide_frame: bool,
    fixed_size: Option<Vec2>,
    j: int,
) -> Vec2 {
    let sizes = spec_measured_sizes(spec_sealed(child));
    let base = sizes[j];
    let stretch = spec_fixed_stretch(child, hide_frame, fixed_size);
    if j == sizes.len() - 1 && stretch > 0 {
        Vec2 { x: base.x, y: clamp_px(base.y + stretch) as i64 }
    } else {
        base
    }
}

/// A single-line container measures exactly as the sums say: when its one
/// line holds well-formed elements whose true totals stay inside the
/// coordinate band, the natural width is the sum of the children's
/// content, margin and padding widths, and the natural height the largest
/// of their content, margin and padding heights.
pub proof fn lemma_single_line_natural_size(child: Ui)
    requires
        spec_sealed(child).len() == 1,
        forall|i: int|
            0 <= i < spec_sealed(child)[0].len() ==> crate::element::spec_elem_sane(
                #[trigger] spec_sealed(child)[0][i],
            ),
        crate::element::spec_plain_line_width(spec_sealed(child)[0]) <= PX_LIMIT,
        forall|i: int|
            0 <= i < spec_sealed(child)[0].len() ==> crate::element::spec_plain_height(
                #[trigger] spec_sealed(child)[0][i],
            ) <= PX_LIMIT,
    ensures
        spec_natural_size(child).x == crate::element::spec_plain_line_width(
            spec_sealed(child)[0],
        ),
        spec_natural_size(child).y == crate::element::spec_plain_line_height(
            spec_sealed(child)[0],
        ),
{
    let line = spec_sealed(child)[0];
    crate::element::lemma_line_width_exact(line);
    crate::element::lemma_line_height_exact(line);
    crate::element::lemma_plain_line_width_nonneg(line);
    crate::element::lemma_line_height_nonneg(line);
    crate::element::lemma_plain_line_height_bound(line, PX_LIMIT as int);
    let sizes = spec_measured_sizes(spec_sealed(child));
    assert(sizes.len() == 1);
    assert(sizes[0] == (Vec2 {
        x: spec_line_width(line) as i64,
        y: spec_line_height(line) as i64,
    }));
    assert(sizes.drop_last() =~= Seq::<Vec2>::empty());
    assert(spec_total_width(sizes.drop_last()) == 0);
    assert(spec_total_height(sizes.drop_last()) == 0);
    assert(sizes.last() == sizes[0]);
}

impl Ui {
    /// The root builder of a frame.
    pub fn new_root(style: Style, responses: Vec<(Id, Response)>) -> (ui: Ui)
        ensures
            ui.style == style,
            ui.current_line@.len() == 0,
            ui.lines@.len() == 0,
            ui.parent_id.spec_hash() == Id::spec_from_vec2(Vec2 { x: 0, y: 0 }),
            ui.responses == responses,
    {
        Ui {
            style,
            current_line: Vec::new(),
            lines: Vec::new(),
            parent_id: Id::from_vec2(Vec2 { x: 0, y: 0 }),
            responses,
        }
    }

    /// The style new elements take.
    pub fn style(&self) -> (s: Style)
        ensures
            s == self.style,
    {
        self.style
    }

    /// The id of the next element pushed here: the parent id combined with
    /// the position hash of (index on line, line index).
    pub open spec fn spec_current_id_hash(&self) -> u64 {
        crate::id::spec_combine(
            self.parent_id.spec_hash(),
            Id::spec_from_vec2(
                Vec2 {
                    x: spec_len_px(self.current_line@.len()) as i64,
                    y: spec_len_px(self.lines@.len()) as i64,
                },
            ),
        )
    }

    /// The id the next element pushed here would get.
    pub fn current_id(&self) -> (r: Id)
        ensures
            r.spec_hash() == self.spec_current_id_hash(),
    {
        let pos = Vec2 { x: len_px(self.current_line.len()), y: len_px(self.lines.len()) };
        self.parent_id.with_child(Id::from_vec2(pos))
    }

    /// What the element at the current position experienced last frame.
    pub fn response(&self) -> (r: Response)
        ensures
            r == spec_lookup_response(self.responses@, self.spec_current_id_hash()),
    {
        let id = self.current_id();
        let ghost target = self.spec_current_id_hash();
        proof {
            assert(self.responses@.skip(0) =~= self.responses@);
        }
        let mut i: usize = 0;
        while i < self.responses.len()
            invariant
                i <= self.responses@.len(),
                spec_lookup_response(self.responses@.skip(i as int), target)
                    == spec_lookup_response(self.responses@, target),
                id.spec_hash() == target,
                target == self.spec_current_id_hash(),
            decreases self.responses@.len() - i,
        {
            let pair = self.responses[i];
            let rid = pair.0;
            let resp = pair.1;
            proof {
                assert(pair == self.responses@[i as int]);
                assert(self.responses@.skip(i as int).first() == self.responses@[i as int]);
                assert(self.responses@.skip(i as int).drop_first() =~= self.responses@.skip(
                    i + 1,
                ));
            }
            if rid == id {
                proof {
                    assert(self.responses@.skip(i as int).first().0.spec_hash() == target);
                    assert(spec_lookup_response(self.responses@.skip(i as int), target) == resp);
                }
                return resp;
            }
            proof {
                crate::id::lemma_id_eq_by_hash(rid, id);
                assert(rid.spec_hash() != target);
                assert(spec_lookup_response(self.responses@.skip(i as int), target)
                    == spec_lookup_response(self.responses@.skip(i + 1), target));
            }
            i = i + 1;
        }
        proof {
            assert(self.responses@.skip(self.responses@.len() as int) =~= Seq::<(
                Id,
                Response,
            )>::empty());
        }
        Response::default()
    }

    /// Appends one element to the current line; everything else stays.
    pub fn push_element(&mut self, el: Element)
        ensures
            final(self).current_line@ == old(self).current_line@.push(el),
            final(self).lines == old(self).lines,
            final(self).style == old(self).style,
            final(self).parent_id == old(self).parent_id,
            final(self).responses == old(self).responses,
    {
        self.current_line.push(el);
    }

    /// Seals the current line and starts a new one.
    pub fn next_line(&mut self)
        ensures
            final(self).lines@.len() == old(self).lines@.len() + 1,
            final(self).lines@.take(old(self).lines@.len() as int) == old(self).lines@,
            final(self).lines@.last().elements@ == old(self).current_line@,
            final(self).current_line@.len() == 0,
            final(self).style == old(self).style,
            final(self).parent_id == old(self).parent_id,
            final(self).responses == old(self).responses,
    {
        let mut moved: Vec<Element> = Vec::new();
        core::mem::swap(&mut moved, &mut self.current_line);
        self.lines.push(Line { elements: moved, size: Vec2 { x: 0, y: 0 } });
        proof {
            assert(self.lines@.take(old(self).lines@.len() as int) =~= old(self).lines@);
        }
    }

    /// A child builder for a nested container: fresh lines, the given
    /// style, ids derived from the current position.
    pub fn child(&self, style: Style) -> (ui: Ui)
        ensures
            ui.style == style,
            ui.current_line@.len() == 0,
            ui.lines@.len() == 0,
            ui.parent_id.spec_hash() == crate::id::spec_combine(
                self.parent_id.spec_hash(),
                self.spec_current_id_hash(),
            ),
            ui.responses@ == self.responses@,
    {
        let current = self.current_id();
        Ui {
            style,
            current_line: Vec::new(),
            lines: Vec::new(),
            parent_id: self.parent_id.with_child(current),
            responses: copy_responses(&self.responses),
        }
    }

    /// Pushes a leaf with the given content size and drawing, under the
    /// current style, without an id and without flex.
    pub fn canvas(&mut self, content_box: Vec2, kind: CanvasKind)
        ensures
            final(self).current_line@.len() == old(self).current_line@.len() + 1,
            final(self).current_line@.take(old(self).current_line@.len() as int) == old(
                self,
            ).current_line@,
            ({
                let el = final(self).current_line@.last();
                &&& el.content_box == content_box
                &&& el.id is None
                &&& el.border_extra == (Vec2 { x: 0, y: 0 })
                &&& !el.flex_x
                &&& !el.flex_y
                &&& el.style == old(self).style
                &&& el.kind is Canvas
            }),
            final(self).lines == old(self).lines,
            final(self).style == old(self).style,
            final(self).parent_id == old(self).parent_id,
            final(self).responses == old(self).responses,
    {
        let style = self.style;
        self.push_element(
            Element {
                content_box,
                id: None,
                border_extra: Vec2 { x: 0, y: 0 },
                flex_x: false,
                flex_y: false,
                style,
                kind: ElementKind::Canvas(kind),
            },
        );
        proof {
            assert(self.current_line@.take(old(self).current_line@.len() as int) =~= old(
                self,
            ).current_line@);
        }
    }

    /// As `canvas`, but the element takes the current id so hit testing
    /// sees it; hands back what that id experienced last frame.
    pub fn interactable_canvas(&mut self, content_box: Vec2, kind: CanvasKind) -> (r: Response)
        ensures
            r == spec_lookup_response(old(self).responses@, old(self).spec_current_id_hash()),
            final(self).current_line@.len() == old(self).current_line@.len() + 1,
            final(self).current_line@.take(old(self).current_line@.len() as int) == old(
                self,
            ).current_line@,
            ({
                let el = final(self).current_line@.last();
                &&& el.content_box == content_box
                &&& el.id matches Some(id) && id.spec_hash() == old(self).spec_current_id_hash()
                &&& !el.flex_x
                &&& !el.flex_y
                &&& el.kind is Canvas
            }),
            final(self).lines == old(self).lines,
            final(self).style == old(self).style,
            final(self).parent_id == old(self).parent_id,
            final(self).responses == old(self).responses,
    {
        let response = self.response();
        let id = self.current_id();
        let style = self.style;
        self.push_element(
            Element {
                content_box,
                id: Some(id),
                border_extra: Vec2 { x: 0, y: 0 },
                flex_x: false,
                flex_y: false,
                style,
                kind: ElementKind::Canvas(kind),
            },
        );
        proof {
            assert(self.current_line@.take(old(self).current_line@.len() as int) =~= old(
                self,
            ).current_line@);
        }
        response
    }

    /// As `canvas`, but the element absorbs horizontal slack on its line.
    pub fn flex_canvas(&mut self, content_box: Vec2, kind: CanvasKind)
        ensures
            final(self).current_line@.len() == old(self).current_line@.len() + 1,
            final(self).current_line@.take(old(self).current_line@.len() as int) == old(
                self,
            ).current_line@,
            ({
                let el = final(self).current_line@.last();
                &&& el.content_box == content_box
                &&& el.id is None
                &&& el.flex_x
                &&& !el.flex_y
            }),
            final(self).lines == old(self).lines,
            final(self).style == old(self).style,
            final(self).parent_id == old(self).parent_id,
            final(self).responses == old(self).responses,
    {
        let style = self.style;
        self.push_element(
            Element {
                content_box,
                id: None,
                border_extra: Vec2 { x: 0, y: 0 },
                flex_x: true,
                flex_y: false,
                style,
                kind: ElementKind::Canvas(kind),
            },
        );
        proof {
            assert(self.current_line@.take(old(self).current_line@.len() as int) =~= old(
                self,
            ).current_line@);
        }
    }

    /// A zero-size element that absorbs horizontal slack: it pushes its
    /// neighbours apart without painting anything.
    pub fn horizontal_spring(&mut self)
        ensures
            final(self).current_line@.len() == old(self).current_line@.len() + 1,
            final(self).current_line@.take(old(self).current_line@.len() as int) == old(
                self,
            ).current_line@,
            ({
                let el = final(self).current_line@.last();
                &&& el.content_box == (Vec2 { x: 0, y: 0 })
                &&& el.id is None
                &&& el.flex_x
                &&& !el.flex_y
                &&& el.kind is Blank
                &&& el.style.margin == (crate::spacing::Spacing { top: 0, bottom: 0, left: 0, right: 0 })
                &&& el.style.padding == (crate::spacing::Spacing { top: 0, bottom: 0, left: 0, right: 0 })
            }),
            final(self).lines == old(self).lines,
            final(self).style == old(self).style,
            final(self).parent_id == old(self).parent_id,
            final(self).responses == old(self).responses,
    {
        let style = self.style.margin(crate::spacing::Spacing::zero()).padding(
            crate::spacing::Spacing::zero(),
        );
        self.push_element(
            Element {
                content_box: Vec2 { x: 0, y: 0 },
                id: None,
                border_extra: Vec2 { x: 0, y: 0 },
                flex_x: true,
                flex_y: false,
                style,
                kind: ElementKind::Blank,
            },
        );
        proof {
            assert(self.current_line@.take(old(self).current_line@.len() as int) =~= old(
                self,
            ).current_line@);
        }
    }

    /// An invisible element of the given size, with margins and paddings
    /// suppressed.
    pub fn empty_area(&mut self, size: Vec2)
        ensures
            final(self).current_line@.len() == old(self).current_line@.len() + 1,
            final(self).current_line@.take(old(self).current_line@.len() as int) == old(
                self,
            ).current_line@,
            ({
                let el = final(self).current_line@.last();
                &&& el.content_box == size
                &&& el.id is None
                &&& !el.flex_x
                &&& !el.flex_y
                &&& el.kind is Blank
                &&& el.style.margin == (crate::spacing::Spacing { top: 0, bottom: 0, left: 0, right: 0 })
                &&& el.style.padding == (crate::spacing::Spacing { top: 0, bottom: 0, left: 0, right: 0 })
            }),
            final(self).lines == old(self).lines,
            final(self).style == old(self).style,
            final(self).parent_id == old(self).parent_id,
            final(self).responses == old(self).responses,
    {
        let style = self.style.margin(crate::spacing::Spacing::zero()).padding(
            crate::spacing::Spacing::zero(),
        );
        self.push_element(
            Element {
                content_box: size,
                id: None,
                border_extra: Vec2 { x: 0, y: 0 },
                flex_x: false,
                flex_y: false,
                style,
                kind: ElementKind::Blank,
            },
        );
        proof {
            assert(self.current_line@.take(old(self).current_line@.len() as int) =~= old(
                self,
            ).current_line@);
        }
    }

    /// An invisible element one blank glyph wide, with margins and paddings
    /// suppressed.
    pub fn space(&mut self)
        ensures
            final(self).current_line@.len() == old(self).current_line@.len() + 1,
            final(self).current_line@.take(old(self).current_line@.len() as int) == old(
                self,
            ).current_line@,
            ({
                let el = final(self).current_line@.last();
                &&& el.content_box == spec_text_size(1, old(self).style.text_height as int, PX_LIMIT as int)
                &&& el.id is None
                &&& !el.flex_x
                &&& !el.flex_y
                &&& el.kind is Blank
            }),
            final(self).lines == old(self).lines,
            final(self).style == old(self).style,
            final(self).parent_id == old(self).parent_id,
            final(self).responses == old(self).responses,
    {
        let style = self.style.margin(crate::spacing::Spacing::zero()).padding(
            crate::spacing::Spacing::zero(),
        );
        let content_box = crate::draw_api::measure_text(" ", self.style.text_height, PX_LIMIT);
        proof {
            reveal_strlit(" ");
        }
        self.push_element(
            Element {
                content_box,
                id: None,
                border_extra: Vec2 { x: 0, y: 0 },
                flex_x: false,
                flex_y: false,
                style,
                kind: ElementKind::Blank,
            },
        );
        proof {
            assert(self.current_line@.take(old(self).current_line@.len() as int) =~= old(
                self,
            ).current_line@);
        }
    }

    /// A text run in the given color and font, one line high, sized by the
    /// monospace metric.
    pub fn colored_text_with_font(&mut self, text: &str, color: Color, font: Font)
        ensures
            final(self).current_line@.len() == old(self).current_line@.len() + 1,
            final(self).current_line@.take(old(self).current_line@.len() as int) == old(
                self,
            ).current_line@,
            ({
                let el = final(self).current_line@.last();
                &&& el.content_box == spec_text_size(
                    text@.len() as int,
                    old(self).style.text_height as int,
                    PX_LIMIT as int,
                )
                &&& el.id is None
                &&& !el.flex_x
                &&& !el.flex_y
                &&& el.kind is Canvas
            }),
            final(self).lines == old(self).lines,
            final(self).style == old(self).style,
            final(self).parent_id == old(self).parent_id,
            final(self).responses == old(self).responses,
    {
        let text_height = self.style.text_height;
        let content_box = crate::draw_api::measure_text(text, text_height, PX_LIMIT);
        let owned = text.to_owned();
        self.canvas(content_box, CanvasKind::TextRun { text: owned, color, font, text_height });
    }

    /// A text run in the given color and the current font.
    pub fn colored_text(&mut self, text: &str, color: Color)
        ensures
            final(self).current_line@.len() == old(self).current_line@.len() + 1,
            final(self).current_line@.take(old(self).current_line@.len() as int) == old(
                self,
            ).current_line@,
            final(self).current_line@.last().content_box == spec_text_size(
                text@.len() as int,
                old(self).style.text_height as int,
                PX_LIMIT as int,
            ),
            final(self).lines == old(self).lines,
            final(self).style == old(self).style,
            final(self).parent_id == old(self).parent_id,
            final(self).responses == old(self).responses,
    {
        let font = match self.style.font {
            Some(f) => f,
            None => Font::load(),
        };
        self.colored_text_with_font(text, color, font);
    }

    /// A text run in the current text color.
    pub fn text(&mut self, text: &str)
        ensures
            final(self).current_line@.len() == old(self).current_line@.len() + 1,
            final(self).current_line@.take(old(self).current_line@.len() as int) == old(
                self,
            ).current_line@,
            final(self).current_line@.last().content_box == spec_text_size(
                text@.len() as int,
                old(self).style.text_height as int,
                PX_LIMIT as int,
            ),
            final(self).lines == old(self).lines,
            final(self).style == old(self).style,
            final(self).parent_id == old(self).parent_id,
            final(self).responses == old(self).responses,
    {
        let color = self.style.text_color;
        self.colored_text(text, color);
    }

    /// A text run in the text color when `active`, else the inactive color.
    pub fn active_text(&mut self, text: &str, active: bool)
        ensures
            final(self).current_line@.len() == old(self).current_line@.len() + 1,
            final(self).current_line@.take(old(self).current_line@.len() as int) == old(
                self,
            ).current_line@,
            final(self).lines == old(self).lines,
            final(self).style == old(self).style,
            final(self).parent_id == old(self).parent_id,
            final(self).responses == old(self).responses,
    {
        let color = if active {
            self.style.text_color
        } else {
            self.style.inactive_color
        };
        self.colored_text(text, color);
    }

    /// A filled rectangle of the given size.
    pub fn rectangle(&mut self, size: Vec2, color: Color)
        ensures
            final(self).current_line@.len() == old(self).current_line@.len() + 1,
            final(self).current_line@.take(old(self).current_line@.len() as int) == old(
                self,
            ).current_line@,
            final(self).current_line@.last().content_box == size,
            final(self).lines == old(self).lines,
            final(self).style == old(self).style,
            final(self).parent_id == old(self).parent_id,
            final(self).responses == old(self).responses,
    {
        self.canvas(size, CanvasKind::Rect { color });
    }

    /// A filled rounded rectangle of the given size.
    pub fn rounded_rectangle(&mut self, size: Vec2, rounding: i64, color: Color)
        ensures
            final(self).current_line@.len() == old(self).current_line@.len() + 1,
            final(self).current_line@.take(old(self).current_line@.len() as int) == old(
                self,
            ).current_line@,
            final(self).current_line@.last().content_box == size,
            final(self).lines == old(self).lines,
            final(self).style == old(self).style,
            final(self).parent_id == old(self).parent_id,
            final(self).responses == old(self).responses,
    {
        self.canvas(size, CanvasKind::RoundedRect { rounding, color });
    }

    /// A vertical separator line two blank glyphs wide, absorbing
    /// horizontal slack.
    pub fn separator(&mut self)
        ensures
            final(self).current_line@.len() == old(self).current_line@.len() + 1,
            final(self).current_line@.take(old(self).current_line@.len() as int) == old(
                self,
            ).current_line@,
            final(self).current_line@.last().flex_x,
            final(self).lines == old(self).lines,
            final(self).style == old(self).style,
            final(self).parent_id == old(self).parent_id,
            final(self).responses == old(self).responses,
    {
        let color = self.style.border_color;
        let content_box = crate::draw_api::measure_text("  ", self.style.text_height, PX_LIMIT);
        self.flex_canvas(content_box, CanvasKind::Separator { color });
    }

    /// An image blit one text line high, its width scaled by the image's
    /// aspect ratio.
    pub fn image(&mut self, image: Image)
        requires
            image.height > 0,
        ensures
            final(self).current_line@.len() == old(self).current_line@.len() + 1,
            final(self).current_line@.take(old(self).current_line@.len() as int) == old(
                self,
            ).current_line@,
            final(self).lines == old(self).lines,
            final(self).style == old(self).style,
            final(self).parent_id == old(self).parent_id,
            final(self).responses == old(self).responses,
    {
        let height = self.style.text_height;
        let hh = if height >= 0 {
            height
        } else {
            0
        };
        let iw: i64 = if image.width < 0 {
            0
        } else {
            image.width as i64
        };
        let w64: i64 = crate::frame::div_nonneg(crate::math::px_mul(hh, iw), image.height as i64);
        let content_box = Vec2 { x: w64, y: height };
        self.canvas(content_box, CanvasKind::ImageBlit { image, tint: None });
    }

    /// An image button: an interactable image blit, tinted while hovered or
    /// held; hands back what its id experienced last frame.
    pub fn image_button(&mut self, image: Image) -> (r: Response)
        requires
            image.height > 0,
        ensures
            r == spec_lookup_response(old(self).responses@, old(self).spec_current_id_hash()),
            final(self).current_line@.len() == old(self).current_line@.len() + 1,
            final(self).lines == old(self).lines,
            final(self).style == old(self).style,
            final(self).parent_id == old(self).parent_id,
            final(self).responses == old(self).responses,
    {
        let response = self.response();
        let height = self.style.text_height;
        let hh = if height >= 0 {
            height
        } else {
            0
        };
        let iw: i64 = if image.width < 0 {
            0
        } else {
            image.width as i64
        };
        let w64: i64 = crate::frame::div_nonneg(crate::math::px_mul(hh, iw), image.height as i64);
        let content_box = Vec2 { x: w64, y: height };
        let tint: Option<Color> = if response.held {
            Some(Color { r: 255, g: 255, b: 255, a: 153 })
        } else if response.hovered {
            Some(Color { r: 255, g: 255, b: 255, a: 204 })
        } else {
            None
        };
        self.interactable_canvas(content_box, CanvasKind::ImageBlit { image, tint })
    }

    /// The text-edit widget: an interactable canvas holding the editor's
    /// view under the current style, so hit testing sees it next frame;
    /// hands back what its id experienced last frame, which the caller
    /// feeds to the editor.
    pub fn text_edit(&mut self, edit: &crate::textedit::TextEdit, size: Vec2, caret_visible: bool) -> (r: Response)
        requires
            edit.string@.len() <= i32::MAX,
        ensures
            r == spec_lookup_response(old(self).responses@, old(self).spec_current_id_hash()),
            final(self).current_line@.len() == old(self).current_line@.len() + 1,
            final(self).current_line@.take(old(self).current_line@.len() as int) == old(
                self,
            ).current_line@,
            ({
                let el = final(self).current_line@.last();
                &&& el.content_box == size
                &&& el.id matches Some(id) && id.spec_hash() == old(self).spec_current_id_hash()
                &&& el.kind is Canvas
            }),
            final(self).lines == old(self).lines,
            final(self).style == old(self).style,
            final(self).parent_id == old(self).parent_id,
            final(self).responses == old(self).responses,
    {
        let th = self.style.text_height;
        let color = self.style.text_color;
        let font = match self.style.font {
            Some(f) => f,
            None => Font::load(),
        };
        let view = edit.view(th, color, font, caret_visible);
        self.interactable_canvas(size, view)
    }

    /// Closes `child` into one composite element on the current line: seals
    /// the child's lines, measures them, adds border extra, applies the
    /// fixed size, and marks the composite flex when the child held a flex
    /// element and expansion from below is allowed.
    pub fn end_container(
        &mut self,
        child: Ui,
        hide_frame: bool,
        fixed_size: Option<Vec2>,
        id: Option<Id>,
        expand_from_below: bool,
    )
        ensures
            final(self).current_line@.len() == old(self).current_line@.len() + 1,
            final(self).current_line@.take(old(self).current_line@.len() as int) == old(
                self,
            ).current_line@,
            ({
                let el = final(self).current_line@.last();
                &&& el.content_box == spec_container_box(child, hide_frame, fixed_size)
                &&& el.id == id
                &&& el.border_extra == (if hide_frame {
                    Vec2 { x: 0, y: 0 }
                } else {
                    spec_border_extra(child.style, spec_natural_size(child))
                })
                &&& el.flex_x == (spec_any_flex(child) && expand_from_below)
                &&& !el.flex_y
                &&& el.style == child.style
                &&& el.kind matches ElementKind::Container(c) && c.hide_frame == hide_frame
                    && c.lines@.len() == spec_sealed(child).len() && (forall|j: int|
                    0 <= j < c.lines@.len() ==> (#[trigger] c.lines@[j]).elements@ == spec_sealed(
                        child,
                    )[j]) && (forall|j: int|
                    0 <= j < c.lines@.len() ==> (#[trigger] c.lines@[j]).size
                        == spec_final_line_size(child, hide_frame, fixed_size, j))
            }),
            final(self).lines == old(self).lines,
            final(self).style == old(self).style,
            final(self).parent_id == old(self).parent_id,
            final(self).responses == old(self).responses,
    {
        let ghost child0 = child;
        let child_style = child.style;
        let mut raw: Vec<Line> = child.lines;
        raw.push(Line { elements: child.current_line, size: Vec2 { x: 0, y: 0 } });
        proof {
            assert(raw@.map_values(|l: Line| l.elements@) =~= child0.lines@.map_values(
                |l: Line| l.elements@,
            ).push(child0.current_line@));
        }
        if raw.len() > 1 && raw[raw.len() - 1].elements.len() == 0 {
            let ghost before = raw@;
            raw.pop();
            proof {
                assert(raw@.map_values(|l: Line| l.elements@) =~= before.map_values(
                    |l: Line| l.elements@,
                ).drop_last());
            }
        }
        let ghost sealed = spec_sealed(child0);
        proof {
            assert(raw@.map_values(|l: Line| l.elements@) =~= sealed);
        }
        let ghost sizes = spec_measured_sizes(sealed);

        let mut measured: Vec<Line> = Vec::new();
        let mut total_x: i64 = 0;
        let mut total_y: i64 = 0;
        let mut any_flex = false;
        while raw.len() > 0
            invariant
                measured@.len() + raw@.len() == sealed.len(),
                raw@.map_values(|l: Line| l.elements@) =~= sealed.skip(measured@.len() as int),
                sizes == spec_measured_sizes(sealed),
                sealed == spec_sealed(child0),
                forall|j: int|
                    0 <= j < measured@.len() ==> (#[trigger] measured@[j]).elements@ == sealed[j]
                        && measured@[j].size == sizes[j],
                total_x == spec_total_width(sizes.take(measured@.len() as int)),
                total_y == spec_total_height(sizes.take(measured@.len() as int)),
                any_flex == exists|j: int|
                    0 <= j < measured@.len() && spec_flex_count(#[trigger] sealed[j]) > 0,
            decreases raw@.len(),
        {
            let ghost k = measured@.len() as int;
            let mut line = raw.remove(0);
            proof {
                assert(raw@.map_values(|l: Line| l.elements@) =~= sealed.skip(k).drop_first());
                assert(sealed.skip(k).drop_first() =~= sealed.skip(k + 1));
                assert(line.elements@ == sealed.skip(k).first());
                assert(sealed.skip(k).first() == sealed[k]);
            }
            let sz = measure_line(&line.elements);
            proof {
                assert(sizes[k] == (Vec2 {
                    x: spec_line_width(sealed[k]) as i64,
                    y: spec_line_height(sealed[k]) as i64,
                }));
            }
            line.size = sz;
            if count_flex(&line.elements) > 0 {
                any_flex = true;
            }
            total_x = px_max_of(total_x, sz.x);
            total_y = px_add(total_y, sz.y);
            measured.push(line);
            proof {
                assert(sizes.take(k + 1).drop_last() =~= sizes.take(k));
                assert(sizes.take(k + 1).last() == sizes[k]);
                assert(spec_line_width(sealed[k]) == clamp_px(spec_line_width(sealed[k])));
                assert(spec_line_height(sealed[k]) == spec_line_height(sealed[k]));
            }
        }
        proof {
            assert(sizes.take(sealed.len() as int) =~= sizes);
            assert(total_x == spec_natural_size(child0).x);
            assert(total_y == spec_natural_size(child0).y);
            assert(any_flex == spec_any_flex(child0));
        }
        let natural = Vec2 { x: total_x, y: total_y };

        let be: Vec2 = if hide_frame {
            Vec2 { x: 0, y: 0 }
        } else {
            border_extra(&child_style, natural)
        };
        let mut box_x = px_add(natural.x, px_add(be.x, be.x));
        let mut box_y = px_add(natural.y, px_add(be.y, be.y));

        match fixed_size {
            Some(fs) => {
                if fs.x > 0 {
                    box_x = fs.x;
                }
                if fs.y > 0 {
                    if fs.y > box_y && measured.len() > 0 {
                        let n = measured.len();
                        let grow = px_sub(fs.y, box_y);
                        let last_line = vstd::std_specs::vec::vec_index_mut(&mut measured, n - 1);
                        last_line.size = Vec2 {
                            x: last_line.size.x,
                            y: px_add(last_line.size.y, grow),
                        };
                    }
                    box_y = fs.y;
                }
            },
            None => {},
        }

        proof {
            assert(sealed.len() >= 1);
            let stretch = spec_fixed_stretch(child0, hide_frame, fixed_size);
            assert forall|j: int| 0 <= j < measured@.len() implies (#[trigger] measured@[j]).size
                == spec_final_line_size(child0, hide_frame, fixed_size, j) by {
                assert(measured@.len() == sealed.len());
            }
        }
        let flex_x = any_flex && expand_from_below;
        self.push_element(
            Element {
                content_box: Vec2 { x: box_x, y: box_y },
                id,
                border_extra: be,
                flex_x,
                flex_y: false,
                style: child_style,
                kind: ElementKind::Container(
                    Box::new(Container { lines: measured, hide_frame }),
                ),
            },
        );
        proof {
            assert(self.current_line@.take(old(self).current_line@.len() as int) =~= old(
                self,
            ).current_line@);
        }
    }

    /// Closes `child` as a framed container that may expand from below.
    pub fn frame(&mut self, child: Ui)
        ensures
            final(self).current_line@.len() == old(self).current_line@.len() + 1,
            final(self).current_line@.take(old(self).current_line@.len() as int) == old(
                self,
            ).current_line@,
            final(self).current_line@.last().content_box == spec_container_box(
                child,
                false,
                None,
            ),
            final(self).current_line@.last().flex_x == spec_any_flex(child),
            final(self).lines == old(self).lines,
            final(self).style == old(self).style,
            final(self).parent_id == old(self).parent_id,
            final(self).responses == old(self).responses,
    {
        self.end_container(child, false, None, None, true);
    }

    /// Closes `child` as a container without chrome of its own.
    pub fn area(&mut self, child: Ui)
        ensures
            final(self).current_line@.len() == old(self).current_line@.len() + 1,
            final(self).current_line@.take(old(self).current_line@.len() as int) == old(
                self,
            ).current_line@,
            final(self).current_line@.last().content_box == spec_container_box(child, true, None),
            final(self).lines == old(self).lines,
            final(self).style == old(self).style,
            final(self).parent_id == old(self).parent_id,
            final(self).responses == old(self).responses,
    {
        self.end_container(child, true, None, None, true);
    }

    /// Closes `child` as a framed container that never expands from below.
    pub fn no_expand_frame(&mut self, child: Ui)
        ensures
            final(self).current_line@.len() == old(self).current_line@.len() + 1,
            final(self).current_line@.take(old(self).current_line@.len() as int) == old(
                self,
            ).current_line@,
            final(self).current_line@.last().content_box == spec_container_box(
                child,
                false,
                None,
            ),
            !final(self).current_line@.last().flex_x,
            final(self).lines == old(self).lines,
            final(self).style == old(self).style,
            final(self).parent_id == old(self).parent_id,
            final(self).responses == old(self).responses,
    {
        self.end_container(child, false, None, None, false);
    }

    /// Closes `child` as a chromeless container that never expands from
    /// below.
    pub fn no_expand_area(&mut self, child: Ui)
        ensures
            final(self).current_line@.len() == old(self).current_line@.len() + 1,
            final(self).current_line@.take(old(self).current_line@.len() as int) == old(
                self,
            ).current_line@,
            final(self).current_line@.last().content_box == spec_container_box(child, true, None),
            !final(self).current_line@.last().flex_x,
            final(self).lines == old(self).lines,
            final(self).style == old(self).style,
            final(self).parent_id == old(self).parent_id,
            final(self).responses == old(self).responses,
    {
        self.end_container(child, true, None, None, false);
    }

    /// Closes `child` as a framed container with the given fixed size on
    /// each positive axis.
    pub fn sized_frame(&mut self, size: Vec2, child: Ui)
        ensures
            final(self).current_line@.len() == old(self).current_line@.len() + 1,
            final(self).current_line@.take(old(self).current_line@.len() as int) == old(
                self,
            ).current_line@,
            final(self).current_line@.last().content_box == spec_container_box(
                child,
                false,
                Some(size),
            ),
            final(self).lines == old(self).lines,
            final(self).style == old(self).style,
            final(self).parent_id == old(self).parent_id,
            final(self).responses == old(self).responses,
    {
        self.end_container(child, false, Some(size), None, false);
    }

    /// Closes `child` as a chromeless container with the given fixed size
    /// on each positive axis.
    pub fn sized_area(&mut self, size: Vec2, child: Ui)
        ensures
            final(self).current_line@.len() == old(self).current_line@.len() + 1,
            final(self).current_line@.take(old(self).current_line@.len() as int) == old(
                self,
            ).current_line@,
            final(self).current_line@.last().content_box == spec_container_box(
                child,
                true,
                Some(size),
            ),
            final(self).lines == old(self).lines,
            final(self).style == old(self).style,
            final(self).parent_id == old(self).parent_id,
            final(self).responses == old(self).responses,
    {
        self.end_container(child, true, Some(size), None, false);
    }

    /// A button: a framed container holding one text run, tinted while
    /// hovered or held, carrying the current id so hit testing sees it.
    /// Hands back what that id experienced last frame.
    pub fn button(&mut self, text: &str) -> (r: Response)
        ensures
            r == spec_lookup_response(old(self).responses@, old(self).spec_current_id_hash()),
            final(self).current_line@.len() == old(self).current_line@.len() + 1,
            final(self).current_line@.take(old(self).current_line@.len() as int) == old(
                self,
            ).current_line@,
            ({
                let el = final(self).current_line@.last();
                &&& el.id matches Some(id) && id.spec_hash() == old(self).spec_current_id_hash()
                &&& el.kind is Container
            }),
            final(self).lines == old(self).lines,
            final(self).style == old(self).style,
            final(self).parent_id == old(self).parent_id,
            final(self).responses == old(self).responses,
    {
        self.button_inner(None, text)
    }

    /// As `button`, with the given fixed size.
    pub fn sized_button(&mut self, size: Vec2, text: &str) -> (r: Response)
        ensures
            r == spec_lookup_response(old(self).responses@, old(self).spec_current_id_hash()),
            final(self).current_line@.len() == old(self).current_line@.len() + 1,
            final(self).current_line@.take(old(self).current_line@.len() as int) == old(
                self,
            ).current_line@,
            ({
                let el = final(self).current_line@.last();
                &&& el.id matches Some(id) && id.spec_hash() == old(self).spec_current_id_hash()
                &&& el.kind is Container
            }),
            final(self).lines == old(self).lines,
            final(self).style == old(self).style,
            final(self).parent_id == old(self).parent_id,
            final(self).responses == old(self).responses,
    {
        self.button_inner(Some(size), text)
    }

    fn button_inner(&mut self, size: Option<Vec2>, text: &str) -> (r: Response)
        ensures
            r == spec_lookup_response(old(self).responses@, old(self).spec_current_id_hash()),
            final(self).current_line@.len() == old(self).current_line@.len() + 1,
            final(self).current_line@.take(old(self).current_line@.len() as int) == old(
                self,
            ).current_line@,
            ({
                let el = final(self).current_line@.last();
                &&& el.id matches Some(id) && id.spec_hash() == old(self).spec_current_id_hash()
                &&& el.kind is Container
            }),
            final(self).lines == old(self).lines,
            final(self).style == old(self).style,
            final(self).parent_id == old(self).parent_id,
            final(self).responses == old(self).responses,
    {
        let response = self.response();
        let style = if response.held {
            self.style.frame_color(held_color(self.style.frame_color))
        } else if response.hovered {
            self.style.frame_color(hover_color(self.style.frame_color))
        } else {
            self.style
        };
        let id = self.current_id();
        let mut inner = self.child(style);
        inner.text(text);
        self.end_container(inner, false, size, Some(id), true);
        response
    }
}

} // verus!

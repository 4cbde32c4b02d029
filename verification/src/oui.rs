//! The frame orchestrator.
//!
//! A frame runs in two halves.  `begin_frame` resolves the pointer input
//! against the previous frame's hit boxes and hands out the builder the
//! application fills.  `end_frame` closes the builder into the root
//! element, grows it to the window when filling is on, runs the two-pass
//! paint, stores the freshly recorded hit boxes for the next frame, and
//! hands back the recorded primitives.

use vstd::prelude::*;
use crate::draw_api::{DrawApi, DrawCmd};
use crate::interact::{resolve_responses, spec_env, spec_run, MouseInput, OuiState};
use crate::math::{px_add, px_max_of, px_sub, Vec2};
use crate::style::{Align, Style};
use crate::frame::{lemma_boxes_rows_agree, paint_element, spec_boxes_of, spec_boxes_of_rows};
use crate::ui::{spec_container_box, spec_final_line_size, spec_natural_size, spec_sealed, Ui};

verus! {

/// The first index holding `key`, if any.
pub open spec fn spec_find_state(states: Seq<(u64, OuiState)>, key: u64) -> Option<int>
    decreases states.len(),
{
    if states.len() == 0 {
        None
    } else if states.first().0 == key {
        Some(0)
    } else {
        match spec_find_state(states.drop_first(), key) {
            Some(i) => Some(i + 1),
            None => None,
        }
    }
}

/// Holds one persistent interaction state per user-supplied handle.
pub struct OuiContext {
    /// The states, keyed by handle; at most one entry per handle.
    pub states: Vec<(u64, OuiState)>,
}

impl OuiContext {
    /// An empty context.
    pub fn new() -> (ctx: OuiContext)
        ensures
            ctx.states@.len() == 0,
    {
        OuiContext { states: Vec::new() }
    }

    /// The state stored under `key`, created fresh when absent.
    pub fn state_for(&mut self, key: u64) -> (r: &mut OuiState)
        ensures
            match spec_find_state(old(self).states@, key) {
                Some(i) => *r == old(self).states@[i].1 && final(self).states@ =~= old(
                    self,
                ).states@.update(i, (key, *final(r))),
                None => final(self).states@ =~= old(self).states@.push((key, *final(r))),
            },
            match spec_find_state(old(self).states@, key) {
                Some(i) => true,
                None => r.bounding_boxes@.len() == 0 && !r.mouse_pressed
                    && r.mouse_pressed_id == crate::id::Id::spec_none()
                    && r.mouse_released_time == 0 && r.mouse_pressed_pos == (Vec2 { x: 0, y: 0 }),
            },
    {
        let mut i: usize = 0;
        let n = self.states.len();
        proof {
            assert(self.states@.skip(0) =~= self.states@);
        }
        while i < n
            invariant
                i <= n,
                n == self.states@.len(),
                self.states == old(self).states,
                spec_find_state(self.states@, key) == match spec_find_state(
                    self.states@.skip(i as int),
                    key,
                ) {
                    Some(j) => Some(j + i),
                    None => None,
                },
            decreases n - i,
        {
            proof {
                assert(self.states@.skip(i as int).first() == self.states@[i as int]);
                assert(self.states@.skip(i as int).drop_first() =~= self.states@.skip(i + 1));
            }
            if self.states[i].0 == key {
                proof {
                    assert(spec_find_state(self.states@.skip(i as int), key) == Some(0int));
                    assert(spec_find_state(self.states@, key) == Some(i as int));
                }
                let entry = vstd::std_specs::vec::vec_index_mut(&mut self.states, i);
                return &mut entry.1;
            }
            i = i + 1;
        }
        proof {
            assert(self.states@.skip(n as int) =~= Seq::<(u64, OuiState)>::empty());
            assert(spec_find_state(self.states@, key) is None);
        }
        self.states.push((key, OuiState::new()));
        let idx = self.states.len() - 1;
        let entry = vstd::std_specs::vec::vec_index_mut(&mut self.states, idx);
        &mut entry.1
    }
}

/// The style a frame's root uses: the given style with the horizontal
/// alignment defaulted to left.
pub open spec fn spec_root_style(style: Style) -> Style {
    match style.align {
        Some(_) => style,
        None => Style { align: Some(Align::Left), ..style },
    }
}

/// What one frame produced: the recorded primitives and the root element's
/// final size.
pub struct FrameOutput {
    /// The primitives, in emission order: all of pass 0, then pass 1.
    pub cmds: Vec<DrawCmd>,
    /// The root's size after the optional fill to the window.
    pub root_size: Vec2,
}

/// Opens a frame: resolves the pointer input against `state`'s recorded hit
/// boxes, updates the sticky press state, and hands out the builder the
/// frame callback fills.
pub fn begin_frame(state: &mut OuiState, input: &MouseInput, style: Style) -> (ui: Ui)
    ensures
        ({
            let env = spec_env(*old(state), *input);
            let run = spec_run(
                old(state).bounding_boxes@.reverse(),
                env,
                if input.pressed_now {
                    crate::id::Id::spec_none()
                } else {
                    old(state).mouse_pressed_id
                },
                false,
            );
            &&& ui.responses@ == run.0
            &&& final(state).mouse_pressed_id == run.1
            &&& final(state).bounding_boxes == old(state).bounding_boxes
            &&& final(state).mouse_pressed == env.mouse_down
            &&& final(state).mouse_pressed_pos == if input.pressed_now {
                input.pos
            } else {
                old(state).mouse_pressed_pos
            }
            &&& final(state).mouse_released_time == if input.released_now {
                input.now_ms
            } else {
                old(state).mouse_released_time
            }
        }),
        ui.style == spec_root_style(style),
        ui.current_line@.len() == 0,
        ui.lines@.len() == 0,
{
    let root_style = match style.align {
        Some(_) => style,
        None => style.align(Align::Left),
    };
    let responses = resolve_responses(state, input);
    let root = Ui::new_root(root_style, responses);
    root.child(root_style)
}

/// The cursor the root element is painted at: inset by the root style's
/// padding and margin.
pub open spec fn spec_root_cursor(style: Style) -> Vec2 {
    Vec2 {
        x: crate::math::clamp_px(style.padding.left + style.margin.left) as i64,
        y: crate::math::clamp_px(
            0 - crate::math::clamp_px(style.padding.top + style.margin.top),
        ) as i64,
    }
}

/// The sizes the root container's sealed lines carry.
pub open spec fn spec_root_line_sizes(ui: Ui) -> Seq<Vec2> {
    Seq::new(spec_sealed(ui).len(), |j: int| spec_final_line_size(ui, false, None, j))
}

/// Closes a frame: packages `ui` into the root element, grows it to
/// `screen_size` when `fill` is on, paints both passes, stores the hit
/// boxes the foreground pass recorded in `state` — next frame's hit-test
/// oracle — and returns the primitives.  Under a debug style the overlay
/// marks every hit box, highlights the top-most one under `mouse_pos` and
/// marks the cursor itself.
pub fn end_frame(
    state: &mut OuiState,
    ui: Ui,
    screen_size: Vec2,
    fill: bool,
    mouse_pos: Vec2,
) -> (out: FrameOutput)
    ensures
        ({
            let natural = spec_container_box(ui, false, None);
            out.root_size == if fill {
                Vec2 {
                    x: if natural.x > screen_size.x {
                        natural.x
                    } else {
                        screen_size.x
                    },
                    y: if natural.y > screen_size.y {
                        natural.y
                    } else {
                        screen_size.y
                    },
                }
            } else {
                natural
            }
        }),
        final(state).bounding_boxes@ == spec_boxes_of_rows(
            spec_sealed(ui),
            spec_root_line_sizes(ui),
            ui.style,
            crate::frame::spec_border_extra(ui.style, spec_natural_size(ui)),
            spec_root_cursor(ui.style),
            out.root_size,
        ),
        ({
            let rows = spec_sealed(ui);
            let empty_ui = forall|j: int| 0 <= j < rows.len() ==> (#[trigger] rows[j]).len() == 0;
            (empty_ui && !ui.style.debug && ui.style.shadow_dir is None) ==> out.cmds@
                == crate::frame::spec_frame_cmds(
                ui.style,
                crate::frame::spec_chrome_cursor(ui.style, spec_root_cursor(ui.style)),
                crate::frame::spec_chrome_size(ui.style, out.root_size),
                crate::color::Color { r: 255, g: 255, b: 255, a: 255 },
            )
        }),
        final(state).mouse_pressed == old(state).mouse_pressed,
        final(state).mouse_pressed_pos == old(state).mouse_pressed_pos,
        final(state).mouse_pressed_id == old(state).mouse_pressed_id,
        final(state).mouse_released_time == old(state).mouse_released_time,
{
    let ghost ui0 = ui;
    let root_style = ui.style;
    let mut outer = Ui::new_root(root_style, Vec::new());
    outer.end_container(ui, false, None, None, true);
    let mut element = match outer.current_line.pop() {
        Some(e) => e,
        None => {
            proof {
                assert(false);
            }
            vstd::pervasive::unreached()
        },
    };

    if fill {
        element.content_box = Vec2 {
            x: px_max_of(element.content_box.x, screen_size.x),
            y: px_max_of(element.content_box.y, screen_size.y),
        };
    }
    let mut draw = DrawApi::new();
    let element_cursor = Vec2 {
        x: px_add(element.style.padding.left, element.style.margin.left),
        y: px_sub(0, px_add(element.style.padding.top, element.style.margin.top)),
    };
    proof {
        assert(element_cursor == spec_root_cursor(ui0.style));
    }

    draw.set_pass(0);
    paint_element(&mut draw, &element, element_cursor, element.content_box);
    draw.set_pass(1);
    paint_element(&mut draw, &element, element_cursor, element.content_box);
    proof {
        let rows = spec_sealed(ui0);
        if (forall|j: int| 0 <= j < rows.len() ==> (#[trigger] rows[j]).len() == 0)
            && ui0.style.shadow_dir is None {
            let c = element.kind->Container_0;
            assert(crate::frame::spec_rows_empty(c.lines@));
            assert(draw.cmds@ =~= crate::frame::spec_frame_cmds(
                element.style,
                crate::frame::spec_chrome_cursor(element.style, element_cursor),
                crate::frame::spec_chrome_size(element.style, element.content_box),
                crate::color::Color { r: 255, g: 255, b: 255, a: 255 },
            ));
        }
    }
    proof {
        assert(draw.boxes@ =~= spec_boxes_of(element, element_cursor, element.content_box));
        let c = element.kind->Container_0;
        lemma_boxes_rows_agree(
            c.lines@,
            element.style,
            element.border_extra,
            element_cursor,
            element.content_box,
        );
        assert(c.lines@.map_values(|l: crate::element::Line| l.elements@) =~= spec_sealed(ui0));
        assert(c.lines@.map_values(|l: crate::element::Line| l.size) =~= spec_root_line_sizes(
            ui0,
        ));
        assert(draw.boxes@ == spec_boxes_of_rows(
            spec_sealed(ui0),
            spec_root_line_sizes(ui0),
            ui0.style,
            crate::frame::spec_border_extra(ui0.style, spec_natural_size(ui0)),
            spec_root_cursor(ui0.style),
            element.content_box,
        ));
    }
    let ghost painted_boxes = draw.boxes@;

    if element.style.debug {
        let mut found_first = false;
        let n = draw.boxes.len();
        let mut i: usize = n;
        while i > 0
            invariant
                i <= n,
                n <= draw.boxes@.len(),
                draw.boxes@ == painted_boxes,
            decreases i,
        {
            let idx = i - 1;
            let (_, bb) = draw.boxes[idx];
            if !found_first && bb.intersect(mouse_pos) {
                draw.rectangle(
                    bb.top_left,
                    bb.size,
                    crate::color::Color { r: 0, g: 0, b: 255, a: 51 },
                );
                found_first = true;
            }
            draw.rectangle_border(
                bb.top_left,
                bb.size,
                1,
                crate::color::Color { r: 255, g: 0, b: 0, a: 255 },
            );
            i = idx;
        }
        draw.circle(
            Vec2 { x: px_sub(mouse_pos.x, 2), y: px_add(mouse_pos.y, 2) },
            1,
            2,
            crate::color::Color { r: 0, g: 255, b: 0, a: 255 },
        );
    }

    let root_size = element.content_box;
    state.bounding_boxes = draw.boxes;
    FrameOutput { cmds: draw.cmds, root_size }
}

} // verus!

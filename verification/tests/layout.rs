use oui::draw_api::{measure_text, DrawCmd};
use oui::element::CanvasKind;
use oui::color::Color;
use oui::interact::{MouseInput, OuiState};
use oui::math::{vec2, Vec2};
use oui::oui::{begin_frame, end_frame, OuiContext};
use oui::spacing::Spacing;
use oui::textedit::TextEdit;
use oui::style::{Align, FrameStyle, Style, VertAlign};

fn idle(now_ms: u64) -> MouseInput {
    MouseInput { pos: vec2(-1000, 1000), pressed_now: false, released_now: false, now_ms }
}

fn press_at(pos: Vec2, now_ms: u64) -> MouseInput {
    MouseInput { pos, pressed_now: true, released_now: false, now_ms }
}

fn release_at(pos: Vec2, now_ms: u64) -> MouseInput {
    MouseInput { pos, pressed_now: false, released_now: true, now_ms }
}

#[test]
fn empty_frame() {
    // Before fill the root is empty and zero-sized.
    let mut state = OuiState::new();
    let ui = begin_frame(&mut state, &idle(0), Style::default());
    let out = end_frame(&mut state, ui, vec2(640, 480), false, vec2(0, 0));
    assert_eq!(out.root_size, vec2(0, 0));
    // Only the root style's chrome is painted.
    assert_eq!(out.cmds.len(), 1);
    assert!(matches!(out.cmds[0], DrawCmd::Rectangle { .. }));

    // With fill on, the root grows to the window.
    let mut state = OuiState::new();
    let ui = begin_frame(&mut state, &idle(0), Style::default());
    let out = end_frame(&mut state, ui, vec2(640, 480), true, vec2(0, 0));
    assert_eq!(out.root_size, vec2(640, 480));
}

#[test]
fn button_click() {
    let mut state = OuiState::new();

    // First frame: no hit boxes yet, so nothing is pressed.
    let mut ui = begin_frame(&mut state, &idle(0), Style::default());
    let r1 = ui.button("OK");
    assert!(!r1.pressed);
    let _ = end_frame(&mut state, ui, vec2(400, 300), true, vec2(0, 0));
    assert_eq!(state.bounding_boxes.len(), 1);

    // Second frame: press at (10, -10), inside the button's frame-1 rect.
    let mut ui = begin_frame(&mut state, &press_at(vec2(10, -10), 100), Style::default());
    let r2 = ui.button("OK");
    assert!(r2.pressed);
    let _ = end_frame(&mut state, ui, vec2(400, 300), true, vec2(0, 0));

    // Third frame: release over the same rect: released exactly once.
    let mut ui = begin_frame(&mut state, &release_at(vec2(10, -10), 200), Style::default());
    let r3 = ui.button("OK");
    assert!(r3.released);
    assert!(!r3.pressed);
    let _ = end_frame(&mut state, ui, vec2(400, 300), true, vec2(0, 0));
}

#[test]
fn horizontal_spring() {
    let mut state = OuiState::new();
    let mut ui = begin_frame(&mut state, &idle(0), Style::default());
    let _ = ui.button("A");
    ui.horizontal_spring();
    let _ = ui.button("B");
    let _ = end_frame(&mut state, ui, vec2(400, 300), true, vec2(0, 0));

    // The recorded hit boxes are the two buttons, in paint order.
    assert_eq!(state.bounding_boxes.len(), 2);
    let (_, rect_a) = state.bounding_boxes[0];
    let (_, rect_b) = state.bounding_boxes[1];

    // "A" is one glyph at text height 20: a 10 by 20 button at the left
    // edge; the spring absorbs the remaining 380 px, so "B" starts at
    // 400 - width("B").
    assert_eq!(rect_a.top_left, vec2(0, 0));
    assert_eq!(rect_a.size, vec2(10, 20));
    assert_eq!(rect_b.top_left.x, 390);
    assert_eq!(rect_b.size, vec2(10, 20));
}

#[test]
fn nested_flex() {
    let mut state = OuiState::new();
    let mut ui = begin_frame(&mut state, &idle(0), Style::default());
    let mut inner = ui.child(ui.style());
    inner.rectangle(vec2(50, 20), Color { r: 255, g: 0, b: 0, a: 255 });
    inner.flex_canvas(vec2(0, 20), CanvasKind::Rect { color: Color { r: 0, g: 0, b: 255, a: 255 } });
    ui.area(inner);
    let out = end_frame(&mut state, ui, vec2(400, 300), true, vec2(0, 0));

    // After root fill to 400, the inner flex canvas spans the slack beside
    // its 50 px sibling.
    let mut found_flexed = false;
    let mut found_fixed = false;
    for cmd in &out.cmds {
        if let DrawCmd::Rectangle { size, color, .. } = cmd {
            if color.b == 255 && color.r == 0 {
                assert_eq!(*size, vec2(350, 20));
                found_flexed = true;
            }
            if color.r == 255 && color.g == 0 && color.b == 0 {
                assert_eq!(*size, vec2(50, 20));
                found_fixed = true;
            }
        }
    }
    assert!(found_flexed);
    assert!(found_fixed);
}

#[test]
fn fixed_size_container() {
    // A fixed-size area larger than its content renders at the fixed size.
    let mut state = OuiState::new();
    let mut ui = begin_frame(&mut state, &idle(0), Style::default());
    let mut inner = ui.child(ui.style());
    inner.rectangle(vec2(20, 20), Color { r: 9, g: 9, b: 9, a: 255 });
    ui.sized_area(vec2(100, 50), inner);
    let out = end_frame(&mut state, ui, vec2(0, 0), false, vec2(0, 0));
    assert_eq!(out.root_size, vec2(100, 50));

    // An axis left at zero is not bounded: it clamps to the content.
    let mut state = OuiState::new();
    let mut ui = begin_frame(&mut state, &idle(0), Style::default());
    let mut inner = ui.child(ui.style());
    inner.rectangle(vec2(80, 20), Color { r: 9, g: 9, b: 9, a: 255 });
    ui.sized_area(vec2(0, 50), inner);
    let out = end_frame(&mut state, ui, vec2(0, 0), false, vec2(0, 0));
    assert_eq!(out.root_size, vec2(80, 50));
}

#[test]
fn single_line_measurement() {
    // Two rectangles with 2 px margins and 3 px paddings on one line:
    // widths add, heights take the maximum.
    let style = Style::default().margin(Spacing::symmetrical(2)).padding(Spacing::symmetrical(3));
    let mut state = OuiState::new();
    let mut ui = begin_frame(&mut state, &idle(0), Style::default());
    let mut inner = ui.child(style);
    inner.rectangle(vec2(30, 10), Color { r: 1, g: 2, b: 3, a: 255 });
    inner.rectangle(vec2(50, 20), Color { r: 4, g: 5, b: 6, a: 255 });
    ui.area(inner);
    let out = end_frame(&mut state, ui, vec2(0, 0), false, vec2(0, 0));
    // Each child occupies its content plus 4 px of margins and 6 px of
    // paddings per axis; the closed container carries the same style, so
    // its own margins and paddings land on top of the 100 by 30 content.
    assert_eq!(out.root_size, vec2(100 + 10, 30 + 10));
}

#[test]
fn lines_stack_vertically() {
    let mut state = OuiState::new();
    let mut ui = begin_frame(&mut state, &idle(0), Style::default());
    let mut inner = ui.child(ui.style());
    inner.rectangle(vec2(30, 10), Color { r: 1, g: 1, b: 1, a: 255 });
    inner.next_line();
    inner.rectangle(vec2(20, 15), Color { r: 1, g: 1, b: 1, a: 255 });
    ui.area(inner);
    let out = end_frame(&mut state, ui, vec2(0, 0), false, vec2(0, 0));
    assert_eq!(out.root_size, vec2(30, 25));
}

#[test]
fn monospace_text_metric() {
    assert_eq!(measure_text("abc", 20, 1000000), vec2(30, 20));
    assert_eq!(measure_text("", 20, 1000000), vec2(0, 20));
    // The width is capped by the given maximum.
    assert_eq!(measure_text("abcdefgh", 20, 25), vec2(25, 20));
}

#[test]
fn context_keeps_state_per_handle() {
    let mut ctx = OuiContext::new();
    {
        let state = ctx.state_for(7);
        let mut ui = begin_frame(state, &idle(0), Style::default());
        let _ = ui.button("OK");
        let _ = end_frame(state, ui, vec2(400, 300), true, vec2(0, 0));
    }
    {
        let state = ctx.state_for(9);
        assert_eq!(state.bounding_boxes.len(), 0);
    }
    {
        let state = ctx.state_for(7);
        assert_eq!(state.bounding_boxes.len(), 1);
    }
}

#[test]
fn debug_overlay_outlines_hit_boxes() {
    // With the cursor over the button, the overlay outlines the hit box,
    // highlights the top-most hovered one and marks the cursor.
    let mut state = OuiState::new();
    let mut ui = begin_frame(&mut state, &idle(0), Style::default().debug(true));
    let _ = ui.button("OK");
    let out = end_frame(&mut state, ui, vec2(400, 300), true, vec2(10, -10));
    assert!(out.cmds.iter().any(|c| matches!(c, DrawCmd::RectangleBorder { .. })));
    assert!(out.cmds.iter().any(|c| match c {
        DrawCmd::Rectangle { color, .. } => color.b == 255 && color.a == 51,
        _ => false,
    }));
    assert!(out.cmds.iter().any(|c| match c {
        DrawCmd::Circle { pos, color, .. } => *pos == vec2(8, -8) && color.g == 255,
        _ => false,
    }));

    // Without the debug flag no overlay is painted.
    let mut state = OuiState::new();
    let mut ui = begin_frame(&mut state, &idle(0), Style::default());
    let _ = ui.button("OK");
    let out = end_frame(&mut state, ui, vec2(400, 300), true, vec2(10, -10));
    assert!(out.cmds.iter().all(|c| !matches!(c, DrawCmd::RectangleBorder { .. })));
}

#[test]
fn circle_frame_inscribes_content() {
    // A 30 by 40 content needs a 50 px diagonal disc; with a 2 px border
    // the frame shape adds (12, 7) per side.
    let style = Style::default()
        .frame_style(FrameStyle::Circle)
        .border_width(2)
        .border_color(Color { r: 10, g: 10, b: 10, a: 255 });
    let mut state = OuiState::new();
    let mut ui = begin_frame(&mut state, &idle(0), Style::default());
    let mut inner = ui.child(style);
    inner.rectangle(vec2(30, 40), Color { r: 1, g: 1, b: 1, a: 255 });
    ui.frame(inner);
    let out = end_frame(&mut state, ui, vec2(0, 0), false, vec2(0, 0));
    assert_eq!(out.root_size, vec2(30 + 2 * 12, 40 + 2 * 7));

    // The chrome is a filled disc and a stroked border circle.
    let mut found_fill = false;
    let mut found_border = false;
    for cmd in &out.cmds {
        if let DrawCmd::Circle { radius, width, .. } = cmd {
            if (*radius, *width) == (12, 25) {
                found_fill = true;
            }
            if (*radius, *width) == (26, 2) {
                found_border = true;
            }
        }
    }
    assert!(found_fill);
    assert!(found_border);
}

#[test]
fn right_alignment_pushes_line_to_the_edge() {
    let style = Style::default().align(Align::Right);
    let mut state = OuiState::new();
    let mut ui = begin_frame(&mut state, &idle(0), Style::default());
    let mut inner = ui.child(style);
    inner.rectangle(vec2(30, 20), Color { r: 7, g: 7, b: 7, a: 255 });
    ui.sized_area(vec2(200, 0), inner);
    let out = end_frame(&mut state, ui, vec2(0, 0), false, vec2(0, 0));

    let mut found = false;
    for cmd in &out.cmds {
        if let DrawCmd::Rectangle { pos, size, color } = cmd {
            if color.r == 7 {
                assert_eq!(*pos, vec2(170, 0));
                assert_eq!(*size, vec2(30, 20));
                found = true;
            }
        }
    }
    assert!(found);
}

#[test]
fn vertical_center_alignment() {
    let mut state = OuiState::new();
    let mut ui = begin_frame(&mut state, &idle(0), Style::default());
    let mut inner = ui.child(ui.style());
    inner.rectangle(vec2(10, 40), Color { r: 3, g: 3, b: 3, a: 255 });
    inner.style = inner.style.vert_align(VertAlign::Center);
    inner.rectangle(vec2(10, 20), Color { r: 5, g: 5, b: 5, a: 255 });
    ui.area(inner);
    let out = end_frame(&mut state, ui, vec2(0, 0), false, vec2(0, 0));

    // The 20 px element centers against the 40 px line: 10 px below the
    // line's top edge.
    let mut found = false;
    for cmd in &out.cmds {
        if let DrawCmd::Rectangle { pos, size, color } = cmd {
            if color.r == 5 {
                assert_eq!(*pos, vec2(10, -10));
                assert_eq!(*size, vec2(10, 20));
                found = true;
            }
        }
    }
    assert!(found);
}

#[test]
fn shadow_pass_emits_shifted_tinted_copy() {
    let mut state = OuiState::new();
    let mut ui = begin_frame(&mut state, &idle(0), Style::default());
    let mut inner = ui.child(ui.style().shadow_dir(vec2(3, -3)));
    inner.rectangle(vec2(20, 20), Color { r: 255, g: 255, b: 255, a: 255 });
    ui.area(inner);
    let out = end_frame(&mut state, ui, vec2(0, 0), false, vec2(0, 0));

    // The default shadow color tints the shadow copy; the foreground copy
    // stays white.
    let mut found_shadow = false;
    let mut found_foreground = false;
    for cmd in &out.cmds {
        if let DrawCmd::Rectangle { pos, color, .. } = cmd {
            if *color == (Color { r: 26, g: 26, b: 26, a: 230 }) {
                assert_eq!(*pos, vec2(3, -3));
                found_shadow = true;
            }
            if *color == (Color { r: 255, g: 255, b: 255, a: 255 }) {
                assert_eq!(*pos, vec2(0, 0));
                found_foreground = true;
            }
        }
    }
    assert!(found_shadow);
    assert!(found_foreground);
}


#[test]
fn text_edit_paints_caret_and_selection() {
    let mut state = OuiState::new();
    let mut ui = begin_frame(&mut state, &idle(0), Style::default());
    // "hi" fully selected, cursor after the second glyph (10 px each).
    let edit = TextEdit::new(String::from("hi"), 100);
    let _ = ui.text_edit(&edit, vec2(100, 20), true);
    let out = end_frame(&mut state, ui, vec2(200, 100), true, vec2(0, 0));

    let mut found_text = false;
    let mut found_caret = false;
    let mut found_selection = false;
    for cmd in &out.cmds {
        match cmd {
            DrawCmd::Text { text, .. } => {
                if text == "hi" {
                    found_text = true;
                }
            }
            DrawCmd::Rectangle { pos, size, color } => {
                // The caret is a 2 px bar after the 20 px of selected text.
                if *size == vec2(2, 20) && pos.x == 20 {
                    found_caret = true;
                }
                // The selection band spans the two glyphs.
                if *size == vec2(20, 20) && pos.x == 0 && color.b == 255 && color.a == 51 {
                    found_selection = true;
                }
            }
            _ => {}
        }
    }
    assert!(found_text);
    assert!(found_caret);
    assert!(found_selection);

    // The widget records a hit box for next frame.
    assert_eq!(state.bounding_boxes.len(), 1);
}

use oui::bounding_box::BoundingBox;
use oui::id::Id;
use oui::interact::{resolve_responses, MouseInput, OuiState};
use oui::math::{vec2, Vec2};

fn id_at(x: i64, y: i64) -> Id {
    Id::from_vec2(vec2(x, y))
}

fn state_with_boxes(boxes: Vec<(Id, BoundingBox)>) -> OuiState {
    let mut state = OuiState::new();
    state.bounding_boxes = boxes;
    state
}

fn input(pos: Vec2, pressed: bool, released: bool, now_ms: u64) -> MouseInput {
    MouseInput { pos, pressed_now: pressed, released_now: released, now_ms }
}

fn find(rs: &[(Id, oui::response::Response)], id: Id) -> oui::response::Response {
    for (rid, r) in rs {
        if *rid == id {
            return *r;
        }
    }
    panic!("id not found");
}

#[test]
fn press_and_release_inside_same_rect() {
    let a = id_at(1, 1);
    let bb = BoundingBox::new(vec2(0, 0), vec2(100, 40));
    let mut state = state_with_boxes(vec![(a, bb)]);

    // Press inside the rect.
    let rs = resolve_responses(&mut state, &input(vec2(10, -10), true, false, 0));
    assert!(find(&rs, a).pressed);
    assert!(!find(&rs, a).released);

    // Release inside the same rect: exactly one released response.
    state.bounding_boxes = vec![(a, bb)];
    let rs = resolve_responses(&mut state, &input(vec2(12, -12), false, true, 50));
    let released: Vec<bool> = rs.iter().map(|(_, r)| r.released).collect();
    assert_eq!(released.iter().filter(|x| **x).count(), 1);
    assert!(find(&rs, a).released);
}

#[test]
fn drag_out_produces_no_release() {
    let a = id_at(1, 1);
    let b = id_at(2, 2);
    let rect_a = BoundingBox::new(vec2(0, 0), vec2(50, 20));
    let rect_b = BoundingBox::new(vec2(100, 0), vec2(50, 20));
    let mut state = state_with_boxes(vec![(a, rect_a), (b, rect_b)]);

    // Press inside A.
    let rs = resolve_responses(&mut state, &input(vec2(10, -10), true, false, 0));
    assert!(find(&rs, a).pressed);

    // Hold while the cursor sits over B: B is hovered but not held, A is
    // neither hovered nor held.
    state.bounding_boxes = vec![(a, rect_a), (b, rect_b)];
    let rs = resolve_responses(&mut state, &input(vec2(110, -10), false, false, 100));
    assert!(find(&rs, b).hovered);
    assert!(!find(&rs, b).held);
    assert!(!find(&rs, a).held);

    // Release over B: no released response anywhere.
    state.bounding_boxes = vec![(a, rect_a), (b, rect_b)];
    let rs = resolve_responses(&mut state, &input(vec2(110, -10), false, true, 200));
    assert!(rs.iter().all(|(_, r)| !r.released));
}

#[test]
fn held_stays_while_cursor_inside() {
    let a = id_at(1, 1);
    let bb = BoundingBox::new(vec2(0, 0), vec2(100, 40));
    let mut state = state_with_boxes(vec![(a, bb)]);

    let rs = resolve_responses(&mut state, &input(vec2(10, -10), true, false, 0));
    assert!(find(&rs, a).pressed);

    state.bounding_boxes = vec![(a, bb)];
    let rs = resolve_responses(&mut state, &input(vec2(40, -20), false, false, 100));
    assert!(find(&rs, a).held);
}

#[test]
fn double_click_within_threshold() {
    let a = id_at(1, 1);
    let bb = BoundingBox::new(vec2(0, 0), vec2(100, 40));
    let mut state = state_with_boxes(vec![(a, bb)]);

    // First press and release.
    let rs = resolve_responses(&mut state, &input(vec2(10, -10), true, false, 0));
    assert!(find(&rs, a).pressed);
    state.bounding_boxes = vec![(a, bb)];
    let _ = resolve_responses(&mut state, &input(vec2(10, -10), false, true, 100));

    // Second press 300 ms later, 5 px away: a double click.
    state.bounding_boxes = vec![(a, bb)];
    let rs = resolve_responses(&mut state, &input(vec2(13, -14), true, false, 400));
    assert!(find(&rs, a).double_clicked);
}

#[test]
fn double_click_too_late() {
    let a = id_at(1, 1);
    let bb = BoundingBox::new(vec2(0, 0), vec2(100, 40));
    let mut state = state_with_boxes(vec![(a, bb)]);

    let _ = resolve_responses(&mut state, &input(vec2(10, -10), true, false, 0));
    state.bounding_boxes = vec![(a, bb)];
    let _ = resolve_responses(&mut state, &input(vec2(10, -10), false, true, 100));

    // 600 ms after the release: too late.
    state.bounding_boxes = vec![(a, bb)];
    let rs = resolve_responses(&mut state, &input(vec2(10, -10), true, false, 700));
    assert!(!find(&rs, a).double_clicked);
    assert!(find(&rs, a).pressed);
}

#[test]
fn top_most_hovered_takes_the_press() {
    let below = id_at(1, 1);
    let above = id_at(2, 2);
    // Both rects contain the cursor; `above` is painted later, so it is
    // visited first in reverse paint order.
    let bb = BoundingBox::new(vec2(0, 0), vec2(100, 40));
    let mut state = state_with_boxes(vec![(below, bb), (above, bb)]);

    let rs = resolve_responses(&mut state, &input(vec2(10, -10), true, false, 0));
    assert!(find(&rs, above).pressed);
    assert!(find(&rs, above).hovered);
    assert!(find(&rs, below).hovered);
    assert!(!find(&rs, below).pressed);
    assert_eq!(rs.iter().filter(|(_, r)| r.pressed).count(), 1);
}

#[test]
fn relative_mouse_position() {
    let a = id_at(1, 1);
    let bb = BoundingBox::new(vec2(20, -10), vec2(100, 40));
    let mut state = state_with_boxes(vec![(a, bb)]);

    let rs = resolve_responses(&mut state, &input(vec2(35, -20), false, false, 0));
    let r = find(&rs, a);
    assert!(r.hovered);
    assert_eq!(r.relative_mouse_pos, vec2(15, -10));
}

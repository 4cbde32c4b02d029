use oui::bounding_box::BoundingBox;
use oui::color::{held_color, hover_color, hsv_to_rgb, rgb_to_hsv, rgba, Color};
use oui::id::Id;
use oui::image::Image;
use oui::interact::{resolve_responses, MouseInput, OuiState};
use oui::math::{abs, vec2, Vec2};
use oui::pattern::{Gradient, LinearGradient, RadialGradient, SolidPattern};
use oui::pixmap::{PixmapMut, PixmapRef};
use oui::rect::RectangleInt;
use oui::response::Response;
use oui::spacing::Spacing;
use oui::textedit::{
    delete_chars, get_char, insert_chars, is_space, string_len, TextEdit, KEY_BACKSPACE, KEY_LEFT,
    KEY_LINEEND, KEY_REDO, KEY_RIGHT, KEY_UNDO, KEY_WORDLEFT, TEXTEDIT_K_CONTROL,
};

fn feed(state: &mut OuiState, t: &mut TextEdit, pressed: bool, released: bool, now: u64) {
    let rs = resolve_responses(
        state,
        &MouseInput { pos: vec2(10, -10), pressed_now: pressed, released_now: released, now_ms: now },
    );
    let mut resp = Response::default();
    for (rid, r) in &rs {
        if *rid == Id::from_vec2(vec2(1, 1)) {
            resp = *r;
        }
    }
    t.apply_response(resp, false, 10);
}

#[test]
fn try_from() {
    let linear = LinearGradient::new(0, 0, 1, 1);
    let gradient = linear.clone().to_gradient();
    let pattern = linear.to_pattern();
    assert!(Gradient::try_from(pattern.clone()).is_ok());
    assert!(LinearGradient::try_from(gradient).is_ok());
    assert!(LinearGradient::try_from_pattern(pattern).is_ok());
}

#[test]
fn radial_is_not_linear() {
    let radial = RadialGradient::new(0, 0, 5, 0, 0, 10, );
    let gradient = radial.to_gradient();
    assert!(LinearGradient::try_from(gradient).is_err());
}

#[test]
fn gradient_stops() {
    let mut linear = LinearGradient::new(0, 0, 10, 0);
    linear.add_color_stop_rgba(0, 255, 0, 0, 255);
    linear.add_color_stop_rgba(10, 0, 0, 255, 255);
    assert_eq!(linear.linear_points(), (0, 0, 10, 0));
    let gradient = linear.to_gradient();
    assert_eq!(gradient.color_stop_count(), 2);
    let s0 = gradient.color_stop_rgba(0).unwrap();
    assert_eq!((s0.offset, s0.r, s0.b), (0, 255, 0));
    assert!(gradient.color_stop_rgba(2).is_none());
}

#[test]
fn solid_pattern_round_trip() {
    let solid = SolidPattern::from_rgba(10, 20, 30, 40);
    assert_eq!(solid.rgba(), (10, 20, 30, 40));
    assert_eq!(SolidPattern::from_rgb(1, 2, 3).rgba(), (1, 2, 3, 255));
}

#[test]
fn red_round_trips_through_hsv() {
    let red = rgba(255, 0, 0, 255);
    let hsv = rgb_to_hsv(red);
    assert_eq!((hsv.r, hsv.g, hsv.b), (0, 255, 255));
    let back = hsv_to_rgb(hsv);
    assert_eq!((back.r, back.g, back.b, back.a), (255, 0, 0, 255));
}

#[test]
fn hover_and_held_shift_gray() {
    // A dark gray brightens by one step while hovered, two while held.
    let dark = rgba(51, 51, 51, 128);
    assert_eq!(hover_color(dark), rgba(64, 64, 64, 128));
    assert_eq!(held_color(dark), rgba(77, 77, 77, 128));
    // A bright gray darkens instead.
    let light = rgba(204, 204, 204, 255);
    assert_eq!(hover_color(light), rgba(191, 191, 191, 255));
}

#[test]
fn id_determinism() {
    let a = Id::from_vec2(vec2(3, 4));
    let b = Id::from_vec2(vec2(3, 4));
    assert_eq!(a, b);
    let parent = Id::from_vec2(vec2(0, 0));
    assert_eq!(parent.with_child(a), parent.with_child(b));
}

#[test]
fn id_position_asymmetry() {
    for (i, j) in [(0i64, 1i64), (1, 2), (2, 7), (10, 1000), (5, 6)] {
        assert_ne!(Id::from_vec2(vec2(i, j)), Id::from_vec2(vec2(j, i)));
    }
    let parent = Id::from_vec2(vec2(0, 0));
    let a = Id::from_vec2(vec2(1, 0));
    let b = Id::from_vec2(vec2(2, 0));
    assert_ne!(parent.with_child(a), parent.with_child(b));
}

#[test]
fn bounding_box_contains_edges() {
    let bb = BoundingBox::new(vec2(10, -5), vec2(20, 10));
    assert!(bb.intersect(vec2(10, -5)));
    assert!(bb.intersect(vec2(30, -15)));
    assert!(bb.intersect(vec2(15, -8)));
    assert!(!bb.intersect(vec2(9, -8)));
    assert!(!bb.intersect(vec2(31, -8)));
    assert!(!bb.intersect(vec2(15, -16)));
    assert!(!bb.intersect(vec2(15, -4)));
}

#[test]
fn spacing_arithmetic() {
    let s = Spacing::symmetrical(3);
    assert_eq!(s.width(), 6);
    assert_eq!(s.height(), 6);
    let x = Spacing::x(4);
    assert_eq!(x.width(), 8);
    assert_eq!(x.height(), 0);
    let sum = s.plus(x);
    assert_eq!(sum.left, 7);
    assert_eq!(sum.top, 3);
    assert_eq!(s.with_top(9).top, 9);
    assert_eq!(s.size(), vec2(6, 6));
}

#[test]
fn abs_value() {
    assert_eq!(abs(-5), 5);
    assert_eq!(abs(5), 5);
    assert_eq!(abs(0), 0);
}

#[test]
fn rectangle_int_accessors() {
    let mut r = RectangleInt::new(1, 2, 3, 4);
    assert_eq!((r.x(), r.y(), r.width(), r.height()), (1, 2, 3, 4));
    r.set_x(10);
    r.set_y(20);
    r.set_width(30);
    r.set_height(40);
    assert_eq!((r.x(), r.y(), r.width(), r.height()), (10, 20, 30, 40));
}

#[test]
fn image_swizzles_to_bgra() {
    let img = Image::load(2, 1, &[1, 2, 3, 4, 5, 6, 7, 8]);
    assert_eq!(img.width, 2);
    assert_eq!(img.height, 1);
    assert_eq!(img.data.as_slice(), &[3, 2, 1, 4, 7, 6, 5, 8]);
}

#[test]
fn pixmap_pixels() {
    let bytes = [10, 11, 12, 13, 20, 21, 22, 23];
    let pm = PixmapRef::from_bytes(&bytes, 2, 1).unwrap();
    assert_eq!(pm.width(), 2);
    assert_eq!(pm.height(), 1);
    let p = pm.pixel(1, 0).unwrap();
    assert_eq!((p.r, p.g, p.b, p.a), (20, 21, 22, 23));
    assert!(pm.pixel(2, 0).is_none());
    assert!(PixmapRef::from_bytes(&bytes, 3, 1).is_none());
    assert!(PixmapRef::from_bytes(&bytes, 0, 1).is_none());
}

#[test]
fn pixmap_fill_premultiplies() {
    let mut pm = PixmapMut::from_bytes(vec![0u8; 8], 2, 1).unwrap();
    pm.fill(Color { r: 255, g: 128, b: 0, a: 128 });
    let view = pm.as_ref();
    let p = view.pixel(0, 0).unwrap();
    assert_eq!((p.r, p.g, p.b, p.a), (128, 64, 0, 128));
}

#[test]
fn typing_and_backspace() {
    let mut t = TextEdit::new(String::new(), 100);
    t.key('a' as i32);
    t.key('b' as i32);
    t.key('c' as i32);
    assert_eq!(t.string, "abc");
    assert_eq!(t.cursor, 3);
    t.key(KEY_BACKSPACE);
    assert_eq!(t.string, "ab");
    t.key(KEY_LEFT);
    t.key('x' as i32);
    assert_eq!(t.string, "axb");
}

#[test]
fn undo_and_redo() {
    let mut t = TextEdit::new(String::new(), 100);
    t.key('a' as i32);
    t.key('b' as i32);
    assert_eq!(t.string, "ab");
    t.key(KEY_UNDO | TEXTEDIT_K_CONTROL);
    assert_eq!(t.string, "a");
    t.key(KEY_REDO | TEXTEDIT_K_CONTROL);
    assert_eq!(t.string, "ab");
    t.key(KEY_UNDO | TEXTEDIT_K_CONTROL);
    t.key(KEY_UNDO | TEXTEDIT_K_CONTROL);
    assert_eq!(t.string, "");
}

#[test]
fn selection_replaced_by_typing() {
    // A fresh editor selects its whole text; typing replaces it.
    let mut t = TextEdit::new(String::from("hello"), 100);
    assert_eq!((t.select_start, t.select_end), (0, 5));
    t.key('z' as i32);
    assert_eq!(t.string, "z");
}

#[test]
fn word_motion() {
    let mut t = TextEdit::new(String::from("one two three"), 100);
    t.key(KEY_LINEEND);
    assert_eq!(t.cursor, 13);
    t.key(KEY_WORDLEFT);
    assert_eq!(t.cursor, 8);
    t.key(KEY_WORDLEFT);
    assert_eq!(t.cursor, 4);
    t.key(KEY_WORDLEFT);
    assert_eq!(t.cursor, 0);
}

#[test]
fn string_helpers() {
    let mut s = String::from("hello");
    delete_chars(&mut s, 1, 2);
    assert_eq!(s, "hlo");
    insert_chars(&mut s, 1, "el");
    assert_eq!(s, "hello");
    assert_eq!(string_len(&s), 5);
    assert_eq!(get_char(&s, 1), 'e');
    assert_eq!(get_char(&s, 99), '\u{0}');
    assert!(is_space(' '));
    assert!(!is_space('x'));
}

#[test]
fn cursor_keys_clamp() {
    let mut t = TextEdit::new(String::from("ab"), 100);
    t.key(KEY_RIGHT);
    t.key(KEY_RIGHT);
    t.key(KEY_RIGHT);
    assert_eq!(t.cursor, 2);
}

#[test]
fn click_places_cursor() {
    let mut t = TextEdit::new(String::from("abcd"), 100);
    // Glyphs 10 px wide: a click at 25 px lands past the midpoint of the
    // third glyph.
    t.click(25, 10);
    assert_eq!(t.cursor, 3);
    t.click(2, 10);
    assert_eq!(t.cursor, 0);
    t.click(1000, 10);
    assert_eq!(t.cursor, 4);
}

#[test]
fn double_click_selects_all() {
    let a = Id::from_vec2(vec2(1, 1));
    let bb = BoundingBox::new(vec2(0, 0), vec2(100, 20));
    let mut state = OuiState::new();
    state.bounding_boxes = vec![(a, bb)];
    let mut t = TextEdit::new(String::from("hello"), 100);

    // Press, release (focuses the widget), then press again within 500 ms
    // and 10 px: the widget selects the entire text.
    feed(&mut state, &mut t, true, false, 0);
    feed(&mut state, &mut t, false, true, 100);
    assert!(t.active);
    feed(&mut state, &mut t, true, false, 300);
    assert_eq!((t.select_start, t.select_end), (0, 5));
}

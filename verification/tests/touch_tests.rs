//! Touch gesture classification and the actions taps and drags perform.

use gorm::config::Config;
use gorm::geometry::Position;
use gorm::text_field::Selection;
use gorm::text_field::TextField;
use gorm::text_field::TouchAction;

fn field_with(text: &str) -> TextField {
    let mut f = TextField::new(Config::default());
    f.paste(text);
    f.set_focused(true);
    f.clear_selection();
    f
}

fn content(f: &TextField) -> String {
    String::from_utf8(f.text()).unwrap()
}

/// A monospace layout snapshot: ten pixels per byte, with a cursor stop at
/// every character boundary.
fn refresh_monospace(f: &mut TextField) {
    let text = String::from_utf8(f.text()).unwrap();
    let len = text.len();
    let positions: Vec<i64> = (0..=len as i64).map(|i| i * 10).collect();
    let content_width = len as i64 * 10;
    let stops: Vec<usize> = text.char_indices().map(|(i, _)| i).collect();
    f.refresh_layout(positions, content_width, stops);
}

#[test]
fn first_touch_on_unfocused_field_only_focuses() {
    let mut f = TextField::new(Config::default());
    f.paste("hello");
    f.set_focused(false);
    f.touch_down(0, Position { x: 100, y: 100 }, 0, 0);
    assert_eq!(f.touch_action(), TouchAction::Focus);
    f.touch_up(0, 0);
    assert_eq!(f.selection(), None);
}

#[test]
fn quick_downs_escalate_to_double_then_triple_then_reset() {
    let mut f = field_with("hello");
    // The first down lands far from the classifier's zero baseline.
    f.touch_down(0, Position { x: 100, y: 100 }, 0, 0);
    assert_eq!(f.touch_action(), TouchAction::Tap);
    f.touch_down(250, Position { x: 100, y: 100 }, 0, 0);
    assert_eq!(f.touch_action(), TouchAction::DoubleTap);
    f.touch_down(400, Position { x: 100, y: 100 }, 0, 0);
    assert_eq!(f.touch_action(), TouchAction::TripleTap);
    f.touch_down(550, Position { x: 100, y: 100 }, 0, 0);
    assert_eq!(f.touch_action(), TouchAction::Tap);
}

#[test]
fn slow_second_down_stays_a_tap() {
    let mut f = field_with("hello");
    f.touch_down(0, Position { x: 100, y: 100 }, 0, 0);
    assert_eq!(f.touch_action(), TouchAction::Tap);
    f.touch_down(500, Position { x: 100, y: 100 }, 0, 0);
    assert_eq!(f.touch_action(), TouchAction::Tap);
}

#[test]
fn distant_second_down_stays_a_tap() {
    let mut f = field_with("hello");
    f.touch_down(0, Position { x: 100, y: 100 }, 0, 0);
    f.touch_down(100, Position { x: 150, y: 100 }, 0, 0);
    assert_eq!(f.touch_action(), TouchAction::Tap);
}

#[test]
fn tap_places_cursor_and_clears_selection() {
    let mut f = field_with("hello");
    f.select(0, 5);
    f.touch_down(0, Position { x: 100, y: 100 }, 0, 0);
    f.touch_up(3, 0);
    assert_eq!(f.selection(), None);
    assert_eq!(f.cursor_byte_index(), 3);
    assert!(f.focused());
}

#[test]
fn double_tap_selects_word() {
    let mut f = field_with("hello world");
    f.touch_down(0, Position { x: 100, y: 100 }, 0, 0);
    f.touch_up(2, 0);
    f.touch_down(150, Position { x: 100, y: 100 }, 2, 0);
    assert_eq!(f.touch_action(), TouchAction::DoubleTap);
    f.touch_up(2, 0);
    assert_eq!(f.selection(), Some(Selection { start: 0, end: 5 }));
}

#[test]
fn double_tap_in_second_word_selects_it() {
    let mut f = field_with("hello world");
    f.touch_down(0, Position { x: 100, y: 100 }, 0, 0);
    f.touch_up(8, 0);
    f.touch_down(150, Position { x: 100, y: 100 }, 8, 0);
    f.touch_up(8, 0);
    assert_eq!(f.selection(), Some(Selection { start: 6, end: 11 }));
}

#[test]
fn double_tap_with_multibyte_word_boundaries() {
    let mut f = field_with("für das");
    f.touch_down(0, Position { x: 100, y: 100 }, 0, 0);
    f.touch_up(1, 0);
    f.touch_down(150, Position { x: 100, y: 100 }, 1, 0);
    f.touch_up(1, 0);
    // "für" spans bytes 0..4 because of the two-byte umlaut.
    assert_eq!(f.selection(), Some(Selection { start: 0, end: 4 }));
}

#[test]
fn triple_tap_selects_everything() {
    let mut f = field_with("hello world");
    f.touch_down(0, Position { x: 100, y: 100 }, 0, 0);
    f.touch_up(2, 0);
    f.touch_down(150, Position { x: 100, y: 100 }, 2, 0);
    f.touch_up(2, 0);
    f.touch_down(300, Position { x: 100, y: 100 }, 2, 0);
    assert_eq!(f.touch_action(), TouchAction::TripleTap);
    f.touch_up(2, 0);
    assert_eq!(f.selection(), Some(Selection { start: 0, end: 11 }));
}

#[test]
fn motion_within_deadzone_keeps_tap() {
    let mut f = field_with("hello");
    f.touch_down(0, Position { x: 100, y: 100 }, 0, 0);
    f.touch_motion(Position { x: 105, y: 100 }, 0, 0);
    assert_eq!(f.touch_action(), TouchAction::Tap);
}

#[test]
fn motion_beyond_deadzone_without_selection_becomes_drag() {
    let mut f = field_with("hello world wide");
    refresh_monospace(&mut f);
    f.set_width(50);
    f.move_cursor(-16);
    assert_eq!(f.scroll_offset(), 0);
    f.touch_down(0, Position { x: 100, y: 100 }, 0, 0);
    f.touch_motion(Position { x: 40, y: 100 }, 0, 0);
    assert_eq!(f.touch_action(), TouchAction::Drag);
    // The drag shifted the content left by the distance from the down point.
    assert_eq!(f.scroll_offset(), -60);
}

#[test]
fn drag_scroll_is_clamped_to_content() {
    let mut f = field_with("hello");
    refresh_monospace(&mut f);
    f.set_width(20);
    f.move_cursor(-5);
    assert_eq!(f.scroll_offset(), 0);
    f.touch_down(0, Position { x: 100, y: 100 }, 0, 0);
    f.touch_motion(Position { x: 2000, y: 100 }, 0, 0);
    assert_eq!(f.touch_action(), TouchAction::Drag);
    assert_eq!(f.scroll_offset(), 0);
    f.touch_motion(Position { x: -2000, y: 100 }, 0, 0);
    // Content is 50 px wide in a 20 px viewport: the offset stops at -30.
    assert_eq!(f.scroll_offset(), -30);
}

#[test]
fn drag_near_selection_end_moves_end_caret() {
    let mut f = field_with("hello world");
    refresh_monospace(&mut f);
    f.select(0, 5);
    f.touch_down(0, Position { x: 100, y: 100 }, 5, 0);
    f.touch_motion(Position { x: 200, y: 100 }, 8, 0);
    assert_eq!(f.touch_action(), TouchAction::DragSelectionEnd);
    assert_eq!(f.selection(), Some(Selection { start: 0, end: 8 }));
}

#[test]
fn drag_near_selection_start_moves_start_caret() {
    let mut f = field_with("hello world");
    refresh_monospace(&mut f);
    f.select(4, 9);
    f.touch_down(0, Position { x: 100, y: 100 }, 4, 0);
    f.touch_motion(Position { x: 200, y: 100 }, 2, 0);
    assert_eq!(f.touch_action(), TouchAction::DragSelectionStart);
    assert_eq!(f.selection(), Some(Selection { start: 2, end: 9 }));
}

#[test]
fn drag_far_from_carets_scrolls_instead() {
    let mut f = field_with("hello world wide");
    refresh_monospace(&mut f);
    f.set_width(50);
    f.select(0, 3);
    f.touch_down(0, Position { x: 100, y: 100 }, 9, 0);
    f.touch_motion(Position { x: 140, y: 100 }, 9, 0);
    assert_eq!(f.touch_action(), TouchAction::Drag);
}

#[test]
fn caret_overtake_swaps_selection_roles() {
    let mut f = field_with("hello world");
    refresh_monospace(&mut f);
    f.select(4, 8);
    // Start dragging the end caret.
    f.touch_down(0, Position { x: 100, y: 100 }, 8, 0);
    f.touch_motion(Position { x: 200, y: 100 }, 10, 0);
    assert_eq!(f.touch_action(), TouchAction::DragSelectionEnd);
    assert_eq!(f.selection(), Some(Selection { start: 4, end: 10 }));
    // Drag it past the start caret: roles swap.
    f.touch_motion(Position { x: 20, y: 100 }, 1, 0);
    assert_eq!(f.touch_action(), TouchAction::DragSelectionStart);
    assert_eq!(f.selection(), Some(Selection { start: 1, end: 4 }));
    // Further motion keeps editing the start caret.
    f.touch_motion(Position { x: 25, y: 100 }, 2, 0);
    assert_eq!(f.selection(), Some(Selection { start: 2, end: 4 }));
}

#[test]
fn release_after_drag_performs_no_tap_action() {
    let mut f = field_with("hello world");
    refresh_monospace(&mut f);
    f.select(4, 8);
    f.touch_down(0, Position { x: 100, y: 100 }, 8, 0);
    f.touch_motion(Position { x: 200, y: 100 }, 10, 0);
    let before = f.selection();
    f.touch_up(0, 0);
    assert_eq!(f.selection(), before);
    assert_eq!(content(&f), "hello world");
}

//! Scroll-offset bounds and scroll-into-view behavior.

use gorm::config::Config;
use gorm::geometry::Position;
use gorm::text_field::TextField;

fn field_with(text: &str) -> TextField {
    let mut f = TextField::new(Config::default());
    f.paste(text);
    f.set_focused(true);
    f.clear_selection();
    f
}

/// A monospace layout snapshot: ten pixels per byte, with a cursor stop at
/// every character boundary.
fn refresh_monospace(f: &mut TextField) {
    let text = String::from_utf8(f.text()).unwrap();
    let len = text.len();
    let positions: Vec<i64> = (0..=len as i64).map(|i| i * 10).collect();
    let content_width = len as i64 * 10;
    let stops: Vec<usize> = text.char_indices().map(|(i, _)| i).collect();
    f.refresh_layout(positions, content_width, stops);
}

fn assert_offset_in_bounds(f: &TextField, content_width: i64, width: i64) {
    let min = -(content_width - width).max(0);
    assert!(f.scroll_offset() >= min, "offset {} below {}", f.scroll_offset(), min);
    assert!(f.scroll_offset() <= 0, "offset {} above zero", f.scroll_offset());
}

#[test]
fn cursor_at_end_scrolls_into_view() {
    // Twenty characters of content, 200 px wide, in a 50 px viewport.
    let mut f = field_with("abcdefghijklmnopqrst");
    f.set_width(50);
    refresh_monospace(&mut f);
    // The cursor sits at x = 200; the offset must bring it to the right edge.
    assert_eq!(f.scroll_offset(), -150);
    assert_offset_in_bounds(&f, 200, 50);
}

#[test]
fn moving_cursor_left_keeps_it_visible() {
    let mut f = field_with("abcdefghijklmnopqrst");
    f.set_width(50);
    refresh_monospace(&mut f);
    f.move_cursor(-20);
    // The cursor is at x = 0, which must land exactly at the left edge.
    assert_eq!(f.scroll_offset(), 0);
    f.move_cursor(10);
    // x = 100 with offset 0 was beyond the 50 px viewport: now at the right edge.
    assert_eq!(f.scroll_offset(), -50);
    assert_offset_in_bounds(&f, 200, 50);
}

#[test]
fn offset_never_leaves_content_bounds() {
    let mut f = field_with("abcdefghij");
    refresh_monospace(&mut f);
    f.set_width(40);
    for step in [-3i32, 5, -9, 12, -1] {
        f.move_cursor(step);
        assert_offset_in_bounds(&f, 100, 40);
    }
}

#[test]
fn widening_viewport_past_content_resets_offset() {
    let mut f = field_with("abcdefghij");
    refresh_monospace(&mut f);
    f.set_width(40);
    f.move_cursor(-10);
    f.move_cursor(10);
    assert_eq!(f.scroll_offset(), -60);
    f.set_width(500);
    // Content now fits entirely: the only offset in bounds is zero.
    assert_eq!(f.scroll_offset(), 0);
}

#[test]
fn selection_scroll_favors_end_boundary() {
    // Both selection edges cannot fit in a 50 px viewport; the end boundary,
    // adjusted last, wins and may hide the start again.
    let mut f = field_with("abcdefghijklmnopqrst");
    f.set_width(50);
    refresh_monospace(&mut f);
    f.select(0, 20);
    // Start pulled the offset to 0, then the end (x = 200) pushed it left.
    assert_eq!(f.scroll_offset(), -150);
}

#[test]
fn edits_defer_scroll_to_next_layout_refresh() {
    let mut f = field_with("abcdefghijklmnopqrst");
    f.set_width(50);
    refresh_monospace(&mut f);
    f.move_cursor(-20);
    assert_eq!(f.scroll_offset(), 0);
    // Paste at the cursor: the offset only moves once fresh positions arrive.
    f.paste("0123456789");
    assert_eq!(f.scroll_offset(), 0);
    refresh_monospace(&mut f);
    // The cursor is now at byte 10, x = 100: scrolled to the right edge.
    assert_eq!(f.scroll_offset(), -50);
    assert_offset_in_bounds(&f, 300, 50);
}

#[test]
fn preedit_bounds_drive_scroll_when_no_selection() {
    let mut f = field_with("abcdefghijklmnopqrst");
    f.set_width(50);
    refresh_monospace(&mut f);
    f.move_cursor(-20);
    assert_eq!(f.scroll_offset(), 0);
    f.set_preedit_string("xyz", 12, 15);
    refresh_monospace(&mut f);
    // The preedit window anchors the viewport on bytes 12..15 (x = 120..150).
    assert_eq!(f.scroll_offset(), -100);
}

#[test]
fn touch_positions_far_outside_screen_are_clamped() {
    let mut f = field_with("hello");
    refresh_monospace(&mut f);
    f.touch_down(0, Position { x: i64::MAX, y: i64::MIN }, 0, 0);
    f.touch_motion(Position { x: i64::MIN, y: i64::MAX }, 0, 0);
    assert_offset_in_bounds(&f, 50, 0);
}

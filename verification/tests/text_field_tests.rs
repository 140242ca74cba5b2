//! Editing behavior of the text field: insertion, deletion, selection and
//! the surrounding-text window.

use gorm::config::Config;
use gorm::geometry::Position;
use gorm::text_field::Key;
use gorm::text_field::KeyEffect;
use gorm::text_field::Modifiers;
use gorm::text_field::Selection;
use gorm::text_field::TextField;

fn field_with(text: &str) -> TextField {
    let mut f = TextField::new(Config::default());
    f.paste(text);
    f
}

fn content(f: &TextField) -> String {
    String::from_utf8(f.text()).unwrap()
}

fn no_mods() -> Modifiers {
    Modifiers { shift: false, ctrl: false, alt: false, logo: false }
}

fn press(f: &mut TextField, key: Key) -> Option<KeyEffect> {
    f.press_key(key, no_mods())
}

#[test]
fn typing_builds_text() {
    let mut f = TextField::new(Config::default());
    press(&mut f, Key::Char('h'));
    press(&mut f, Key::Char('e'));
    press(&mut f, Key::Char('y'));
    assert_eq!(content(&f), "hey");
    assert_eq!(f.cursor_byte_index(), 3);
}

#[test]
fn typing_multibyte_keeps_boundaries() {
    let mut f = TextField::new(Config::default());
    press(&mut f, Key::Char('é'));
    press(&mut f, Key::Char('ü'));
    press(&mut f, Key::Char('x'));
    assert_eq!(content(&f), "éüx");
    assert_eq!(f.cursor_byte_index(), 5);
    let text = content(&f);
    assert!(text.is_char_boundary(f.cursor_byte_index()));
}

#[test]
fn cursor_stays_on_boundaries_through_edits() {
    let mut f = TextField::new(Config::default());
    f.paste("aé😀b");
    let ops: [i32; 7] = [-1, -1, 1, -1, -1, -1, 1];
    for step in ops {
        f.move_cursor(step);
        let text = content(&f);
        assert!(text.is_char_boundary(f.cursor_byte_index()));
    }
    press(&mut f, Key::BackSpace);
    let text = content(&f);
    assert!(text.is_char_boundary(f.cursor_byte_index()));
    if let Some(sel) = f.selection() {
        assert!(text.is_char_boundary(sel.start as usize));
        assert!(text.is_char_boundary(sel.end as usize));
    }
}

#[test]
fn backspace_removes_whole_character() {
    let mut f = field_with("aé");
    press(&mut f, Key::BackSpace);
    assert_eq!(content(&f), "a");
    press(&mut f, Key::BackSpace);
    assert_eq!(content(&f), "");
    press(&mut f, Key::BackSpace);
    assert_eq!(content(&f), "");
}

#[test]
fn delete_forward_at_end_is_noop() {
    let mut f = field_with("ab");
    press(&mut f, Key::Delete);
    assert_eq!(content(&f), "ab");
}

#[test]
fn delete_forward_removes_character_under_cursor() {
    let mut f = field_with("aéb");
    f.move_cursor(-2);
    press(&mut f, Key::Delete);
    assert_eq!(content(&f), "ab");
    assert_eq!(f.cursor_byte_index(), 1);
}

#[test]
fn select_clamps_and_snaps_to_boundaries() {
    let mut f = field_with("héllo");
    f.select(-5, 100);
    assert_eq!(f.selection(), Some(Selection { start: 0, end: 6 }));
    f.select(2, 3);
    assert_eq!(f.selection(), None);
    f.select(1, 2);
    assert_eq!(f.selection(), Some(Selection { start: 1, end: 3 }));
}

#[test]
fn select_all_then_clear_preserves_content() {
    let mut f = field_with("some content");
    let before = content(&f);
    f.select_all();
    f.clear_selection();
    assert_eq!(content(&f), before);
    assert_eq!(f.selection(), None);
}

#[test]
fn delete_then_reinsert_same_text_restores_content() {
    let mut f = field_with("hello world");
    f.select(3, 8);
    let before = content(&f);
    let selected = String::from_utf8(f.selection_text().unwrap()).unwrap();
    assert_eq!(selected, "lo wo");
    let sel = f.selection().unwrap();
    f.delete_selected(sel);
    assert_eq!(content(&f), "helrld");
    f.paste(&selected);
    assert_eq!(content(&f), before);
}

#[test]
fn delete_selected_at_text_end_anchors_cursor_to_last_character() {
    let mut f = field_with("abcd");
    f.select(2, 4);
    let sel = f.selection().unwrap();
    f.delete_selected(sel);
    assert_eq!(content(&f), "ab");
    assert_eq!(f.cursor_byte_index(), 2);
}

#[test]
fn paste_replaces_selection() {
    let mut f = field_with("hello world");
    f.select(0, 5);
    f.paste("goodbye");
    assert_eq!(content(&f), "goodbye world");
    assert_eq!(f.cursor_byte_index(), 7);
    assert_eq!(f.selection(), None);
}

#[test]
fn left_collapses_selection_to_start() {
    let mut f = field_with("hello");
    f.select(1, 4);
    press(&mut f, Key::Left);
    assert_eq!(f.selection(), None);
    assert_eq!(f.cursor_byte_index(), 1);
}

#[test]
fn right_collapses_selection_to_end() {
    let mut f = field_with("hello");
    f.select(1, 4);
    press(&mut f, Key::Right);
    assert_eq!(f.selection(), None);
    assert_eq!(f.cursor_byte_index(), 4);
}

#[test]
fn right_with_selection_at_end_stays_inside_text() {
    let mut f = field_with("hello");
    f.select(1, 5);
    press(&mut f, Key::Right);
    assert_eq!(f.selection(), None);
    assert_eq!(f.cursor_byte_index(), 5);
}

#[test]
fn submit_returns_text_and_unfocuses() {
    let mut f = field_with("secret");
    f.set_focused(true);
    match press(&mut f, Key::Return) {
        Some(KeyEffect::Submit(text)) => assert_eq!(String::from_utf8(text).unwrap(), "secret"),
        other => panic!("expected a submit effect, got {:?}", other),
    }
    assert!(!f.focused());
    assert_eq!(f.selection(), None);
}

#[test]
fn copy_returns_selection_text() {
    let mut f = field_with("hello world");
    f.select(6, 11);
    let mods = Modifiers { shift: true, ctrl: true, alt: false, logo: false };
    match f.press_key(Key::Char('c'), mods) {
        Some(KeyEffect::CopyText(text)) => {
            assert_eq!(String::from_utf8(text).unwrap(), "world")
        },
        other => panic!("expected a copy effect, got {:?}", other),
    }
    assert_eq!(content(&f), "hello world");
}

#[test]
fn copy_without_selection_does_nothing() {
    let mut f = field_with("hello");
    let mods = Modifiers { shift: true, ctrl: true, alt: false, logo: false };
    assert!(f.press_key(Key::Char('c'), mods).is_none());
}

#[test]
fn paste_key_requests_clipboard() {
    let mut f = field_with("hello");
    let mods = Modifiers { shift: true, ctrl: true, alt: false, logo: false };
    assert!(matches!(f.press_key(Key::Char('v'), mods), Some(KeyEffect::RequestPaste)));
}

#[test]
fn logo_and_alt_are_ignored() {
    let mut f = field_with("hello");
    let logo = Modifiers { shift: false, ctrl: false, alt: false, logo: true };
    assert!(f.press_key(Key::Char('x'), logo).is_none());
    assert_eq!(content(&f), "hello");
    let alt = Modifiers { shift: false, ctrl: false, alt: true, logo: false };
    assert!(f.press_key(Key::BackSpace, alt).is_none());
    assert_eq!(content(&f), "hello");
}

#[test]
fn ctrl_characters_are_not_inserted() {
    let mut f = field_with("hello");
    let ctrl = Modifiers { shift: false, ctrl: true, alt: false, logo: false };
    assert!(f.press_key(Key::Char('x'), ctrl).is_none());
    assert_eq!(content(&f), "hello");
}

#[test]
fn focus_gain_selects_all_and_loss_clears() {
    let mut f = field_with("hello");
    f.set_focused(false);
    f.set_focused(true);
    assert_eq!(f.selection(), Some(Selection { start: 0, end: 5 }));
    f.set_focused(false);
    assert_eq!(f.selection(), None);
}

#[test]
fn surrounding_text_truncates_to_budget() {
    let mut f = TextField::new(Config::default());
    let long = "a".repeat(10000);
    f.paste(&long);
    f.set_focused(true);
    // Place the cursor at byte 5000 through a tap.
    f.touch_down(1000, Position { x: 500, y: 500 }, 0, 0);
    f.touch_up(5000, 0);
    assert_eq!(f.cursor_byte_index(), 5000);
    let (window, cursor_start, cursor_end) = f.surrounding_text();
    assert_eq!(window.len(), 4000);
    assert_eq!(cursor_start, 2000);
    assert_eq!(cursor_end, 2000);
}

#[test]
fn surrounding_text_respects_character_boundaries() {
    let mut f = TextField::new(Config::default());
    let long = "é".repeat(3000);
    f.paste(&long);
    f.set_focused(true);
    f.touch_down(1000, Position { x: 500, y: 500 }, 0, 0);
    f.touch_up(3000, 0);
    let (window, cursor_start, _) = f.surrounding_text();
    assert!(window.len() <= 4000);
    let text = String::from_utf8(window).unwrap();
    assert!(!text.is_empty());
    assert!(cursor_start >= 0);
}

#[test]
fn surrounding_text_reports_selection_bounds() {
    let mut f = field_with("hello world");
    f.select(2, 7);
    let (window, cursor_start, cursor_end) = f.surrounding_text();
    assert_eq!(String::from_utf8(window).unwrap(), "hello world");
    assert_eq!(cursor_start, 2);
    assert_eq!(cursor_end, 7);
}

#[test]
fn move_cursor_stops_at_buffer_ends() {
    let mut f = field_with("ab");
    f.move_cursor(-100);
    assert_eq!(f.cursor_byte_index(), 0);
    f.move_cursor(100);
    assert_eq!(f.cursor_byte_index(), 2);
}

#[test]
fn move_cursor_steps_whole_characters() {
    let mut f = field_with("aéb");
    f.move_cursor(-2);
    assert_eq!(f.cursor_byte_index(), 1);
    f.move_cursor(1);
    assert_eq!(f.cursor_byte_index(), 3);
}

#[test]
fn text_returns_buffer_copy() {
    let f = field_with("héllo");
    assert_eq!(f.text(), "héllo".as_bytes().to_vec());
}

/// A layout snapshot whose cursor stops come from the caller, standing in
/// for the shaping engine's grapheme cluster boundaries.
fn refresh_with_stops(f: &mut TextField, stops: Vec<usize>) {
    let len = f.text().len();
    let positions: Vec<i64> = (0..=len as i64).map(|i| i * 10).collect();
    let content_width = len as i64 * 10;
    f.refresh_layout(positions, content_width, stops);
}

#[test]
fn backspace_removes_combining_cluster_as_unit() {
    // 'e' followed by a combining acute accent is one grapheme cluster of
    // three bytes, then a plain 'x': cluster stops at 0, 3 and 4.
    let mut f = field_with("e\u{301}x");
    refresh_with_stops(&mut f, vec![0, 3, 4]);
    press(&mut f, Key::BackSpace);
    assert_eq!(content(&f), "e\u{301}");
    refresh_with_stops(&mut f, vec![0, 3]);
    press(&mut f, Key::BackSpace);
    assert_eq!(content(&f), "");
}

#[test]
fn delete_forward_removes_combining_cluster_as_unit() {
    let mut f = field_with("e\u{301}x");
    refresh_with_stops(&mut f, vec![0, 3, 4]);
    f.move_cursor(-2);
    assert_eq!(f.cursor_byte_index(), 0);
    press(&mut f, Key::Delete);
    assert_eq!(content(&f), "x");
    assert_eq!(f.cursor_byte_index(), 0);
}

#[test]
fn cursor_steps_cross_combining_clusters() {
    let mut f = field_with("e\u{301}x");
    refresh_with_stops(&mut f, vec![0, 3, 4]);
    f.move_cursor(-1);
    assert_eq!(f.cursor_byte_index(), 3);
    f.move_cursor(-1);
    // One step left from the cluster's end lands before the whole cluster,
    // never between the base letter and its accent.
    assert_eq!(f.cursor_byte_index(), 0);
    f.move_cursor(1);
    assert_eq!(f.cursor_byte_index(), 3);
}

#[test]
fn malformed_stop_snapshots_are_sanitized() {
    let mut f = field_with("héllo");
    // Offsets out of order, past the end, or inside the two-byte character
    // are discarded; the rest frame the buffer.
    refresh_with_stops(&mut f, vec![99, 2, 3, 1, 3]);
    f.move_cursor(-10);
    assert_eq!(f.cursor_byte_index(), 0);
    f.move_cursor(1);
    assert_eq!(f.cursor_byte_index(), 3);
}

#[test]
fn ignored_key_press_changes_nothing() {
    let mut f = field_with("abc");
    f.set_focused(true);
    let before_selection = f.selection();
    let logo = Modifiers { shift: false, ctrl: false, alt: false, logo: true };
    assert!(f.press_key(Key::Char('x'), logo).is_none());
    assert_eq!(content(&f), "abc");
    assert_eq!(f.selection(), before_selection);
    assert!(f.focused());
}

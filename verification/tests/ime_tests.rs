//! Input-method synchronization: debounced transport transitions, the pushed
//! window, and change-cause threading.

use gorm::config::Config;
use gorm::ime::ImeSync;
use gorm::ime::TextInput;
use gorm::ime::sync_ime;
use gorm::text_field::ChangeCause;
use gorm::text_field::Key;
use gorm::text_field::Modifiers;
use gorm::text_field::TextField;

fn no_mods() -> Modifiers {
    Modifiers { shift: false, ctrl: false, alt: false, logo: false }
}

#[test]
fn enable_and_disable_are_edge_triggered() {
    let mut t = TextInput::new();
    assert!(t.enable());
    assert!(!t.enable());
    assert!(t.disable());
    assert!(!t.disable());
    assert!(t.enable());
}

#[test]
fn sync_disables_transport_for_unfocused_field() {
    let mut f = TextField::new(Config::default());
    let mut t = TextInput::new();
    match sync_ime(&mut f, &mut t) {
        ImeSync::Disable { emit } => assert!(!emit),
        ImeSync::Push { .. } => panic!("unfocused field must disable the transport"),
    }
    t.enable();
    match sync_ime(&mut f, &mut t) {
        ImeSync::Disable { emit } => assert!(emit),
        ImeSync::Push { .. } => panic!("unfocused field must disable the transport"),
    }
}

#[test]
fn sync_pushes_surrounding_text_for_focused_field() {
    let mut f = TextField::new(Config::default());
    f.paste("hello");
    f.set_focused(true);
    f.clear_selection();
    let mut t = TextInput::new();
    match sync_ime(&mut f, &mut t) {
        ImeSync::Push { enable_first, surrounding, cursor_start, cursor_end, .. } => {
            assert!(enable_first);
            assert_eq!(String::from_utf8(surrounding).unwrap(), "hello");
            assert_eq!(cursor_start, 5);
            assert_eq!(cursor_end, 5);
        },
        ImeSync::Disable { .. } => panic!("focused field must push state"),
    }
    // A second sync reuses the enabled transport.
    match sync_ime(&mut f, &mut t) {
        ImeSync::Push { enable_first, .. } => assert!(!enable_first),
        ImeSync::Disable { .. } => panic!("focused field must push state"),
    }
}

#[test]
fn change_cause_defaults_to_input_method_and_resets_after_use() {
    let mut f = TextField::new(Config::default());
    f.set_focused(true);
    f.commit_string("abc");
    let mut t = TextInput::new();
    match sync_ime(&mut f, &mut t) {
        ImeSync::Push { cause, .. } => assert_eq!(cause, ChangeCause::InputMethod),
        ImeSync::Disable { .. } => panic!("focused field must push state"),
    }
    // A user key press marks the next update as user-caused.
    f.press_key(Key::Char('x'), no_mods());
    match sync_ime(&mut f, &mut t) {
        ImeSync::Push { cause, .. } => assert_eq!(cause, ChangeCause::Other),
        ImeSync::Disable { .. } => panic!("focused field must push state"),
    }
    // Consumed after one use: the cause falls back to the input method.
    match sync_ime(&mut f, &mut t) {
        ImeSync::Push { cause, .. } => assert_eq!(cause, ChangeCause::InputMethod),
        ImeSync::Disable { .. } => panic!("focused field must push state"),
    }
}

#[test]
fn commit_string_inserts_at_cursor() {
    let mut f = TextField::new(Config::default());
    f.paste("helloworld");
    f.move_cursor(-5);
    f.commit_string(", ");
    assert_eq!(String::from_utf8(f.text()).unwrap(), "hello, world");
}

#[test]
fn delete_surrounding_removes_around_cursor() {
    let mut f = TextField::new(Config::default());
    f.paste("hello world");
    f.move_cursor(-6);
    f.delete_surrounding_text(2, 3);
    assert_eq!(String::from_utf8(f.text()).unwrap(), "helrld");
    assert_eq!(f.cursor_byte_index(), 3);
}

#[test]
fn delete_surrounding_clamps_to_buffer_bounds() {
    let mut f = TextField::new(Config::default());
    f.paste("abc");
    f.move_cursor(-1);
    f.delete_surrounding_text(100, 100);
    assert_eq!(String::from_utf8(f.text()).unwrap(), "");
    assert_eq!(f.cursor_byte_index(), 0);
}

#[test]
fn delete_surrounding_never_splits_characters() {
    let mut f = TextField::new(Config::default());
    f.paste("aéb");
    // Cursor after the two-byte character, at byte 3.
    f.move_cursor(-1);
    // One byte in each direction would split nothing here but lands inside
    // the umlaut on the left: the range snaps inward to boundaries.
    f.delete_surrounding_text(1, 1);
    let text = String::from_utf8(f.text()).unwrap();
    assert_eq!(text, "aé");
}

#[test]
fn preedit_replaces_selection_and_is_exposed() {
    let mut f = TextField::new(Config::default());
    f.paste("hello world");
    f.select(0, 5);
    f.set_preedit_string("HEY", 0, 3);
    assert_eq!(String::from_utf8(f.text()).unwrap(), " world");
    assert_eq!(f.selection(), None);
    let (preedit, begin, end) = f.preedit();
    assert_eq!(String::from_utf8(preedit).unwrap(), "HEY");
    assert_eq!(begin, 0);
    assert_eq!(end, 3);
}

#[test]
fn empty_preedit_keeps_selection() {
    let mut f = TextField::new(Config::default());
    f.paste("hello");
    f.select(1, 3);
    f.set_preedit_string("", 0, 0);
    assert!(f.selection().is_some());
}

#[test]
fn text_input_dirty_flag_is_taken_once() {
    let mut f = TextField::new(Config::default());
    assert!(f.take_text_input_dirty());
    assert!(!f.take_text_input_dirty());
    f.paste("x");
    assert!(f.take_text_input_dirty());
    assert!(!f.take_text_input_dirty());
}

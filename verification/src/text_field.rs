//! The text-input field: cursor and selection model, touch gesture
//! classification, and horizontal scrolling.
//!
//! The field owns its content as a UTF-8 byte buffer. Anything that needs the
//! text-shaping collaborator — mapping screen positions to byte offsets and
//! byte offsets to pixel positions — enters through plain values: touch
//! handlers take the hit-tested `(index, offset)` pair, and the caller feeds
//! pixel positions for each byte offset through [`TextField::refresh_layout`].

use vstd::prelude::*;
use vstd::string::StrSliceExecFns;
use vstd::string::StringSliceAdditionalSpecFns;
use vstd::utf8::valid_utf8;
use vstd::utf8::is_char_boundary;

use crate::config::Config;
use crate::geometry::MAX_COORD;
use crate::geometry::MIN_COORD;
use crate::geometry::Position;
use crate::geometry::position_in_range;
use crate::unicode::spec_snap_forward;
use crate::unicode::snap_forward;

verus! {

broadcast use vstd::utf8::is_char_boundary_iff_not_is_continuation_byte,
    vstd::utf8::is_char_boundary_start_end_of_seq, vstd::utf8::valid_utf8_split,
    vstd::utf8::valid_utf8_concat;

/// Maximum number of surrounding bytes handed to the input method.
///
/// The value `4000` respects the maximum Wayland protocol message size; a
/// higher value would lead to protocol errors.
pub const MAX_SURROUNDING_BYTES: usize = 4000;

/// Largest buffer length the field accepts, so byte offsets fit in `i32`.
pub const MAX_TEXT_BYTES: usize = 0x7fffffff;

/// What caused the upcoming surrounding-text change, as reported to the input
/// method. Threading the cause through prevents feedback loops: edits that
/// the input method itself made are not echoed back as user edits.
#[derive(Copy, Clone, Debug, PartialEq, Eq, Structural)]
pub enum ChangeCause {
    /// The input method made the change.
    InputMethod,
    /// The user or another mechanism made the change.
    Other,
}

/// A selected byte range `[start, end)` of the buffer.
#[derive(Copy, Clone, Debug, PartialEq, Eq, Structural)]
pub struct Selection {
    pub start: i32,
    pub end: i32,
}

/// Intention of a touch sequence.
#[derive(Copy, Clone, Debug, PartialEq, Eq, Structural)]
pub enum TouchAction {
    Tap,
    DoubleTap,
    TripleTap,
    Drag,
    DragSelectionStart,
    DragSelectionEnd,
    Focus,
}

/// Touch event tracking.
#[derive(Copy, Clone, Debug, PartialEq, Eq, Structural)]
pub struct TouchState {
    pub action: TouchAction,
    pub last_time: u32,
    pub last_position: Position,
    pub last_motion_position: Position,
    pub start_byte_index: i32,
}

impl TouchState {
    /// The state before any touch was seen.
    pub fn new() -> (t: Self)
        ensures
            t == initial_touch_state(),
    {
        TouchState {
            action: TouchAction::Tap,
            last_time: 0,
            last_position: Position { x: 0, y: 0 },
            last_motion_position: Position { x: 0, y: 0 },
            start_byte_index: 0,
        }
    }

    /// Updates the state from a touch-down event.
    pub fn down(
        &mut self,
        input: &crate::config::Input,
        time: u32,
        position: Position,
        byte_index: i32,
        focused: bool,
    )
        requires
            position_in_range(position),
            position_in_range(old(self).last_position),
        ensures
            *final(self) == spec_touch_down(
                *old(self),
                *input,
                time,
                position,
                byte_index,
                focused,
            ),
    {
        let within_time = (self.last_time as u128) + (input.max_multi_tap.as_millis() as u128)
            >= time as u128;
        let within_dist = position.distance_squared(&self.last_position)
            <= input.max_tap_distance;
        self.action = if !focused {
            TouchAction::Focus
        } else if within_time && within_dist {
            match self.action {
                TouchAction::Tap => TouchAction::DoubleTap,
                TouchAction::DoubleTap => TouchAction::TripleTap,
                _ => TouchAction::Tap,
            }
        } else {
            TouchAction::Tap
        };
        self.start_byte_index = byte_index;
        self.last_motion_position = position;
        self.last_position = position;
        self.last_time = time;
    }

    /// Updates the state from a touch-motion event and returns the pixel
    /// delta: incremental since the last motion for established drags, from
    /// the down position while the touch may still be a tap.
    pub fn motion(
        &mut self,
        input: &crate::config::Input,
        position: Position,
        selection: Option<Selection>,
    ) -> (delta: Position)
        requires
            position_in_range(position),
            position_in_range(old(self).last_position),
            position_in_range(old(self).last_motion_position),
        ensures
            *final(self) == spec_touch_motion(*old(self), *input, position, selection),
            delta == spec_touch_motion_delta(*old(self), position),
    {
        let incremental = Position {
            x: position.x - self.last_motion_position.x,
            y: position.y - self.last_motion_position.y,
        };
        self.last_motion_position = position;
        if !matches!(self.action, TouchAction::Tap) {
            return incremental;
        }
        let from_down = Position {
            x: position.x - self.last_position.x,
            y: position.y - self.last_position.y,
        };
        if position.distance_squared(&self.last_position) <= input.max_tap_distance {
            return from_down;
        }
        self.action = match selection {
            Some(sel) => {
                let start_delta: i64 = if self.start_byte_index as i64 >= sel.start as i64 {
                    self.start_byte_index as i64 - sel.start as i64
                } else {
                    sel.start as i64 - self.start_byte_index as i64
                };
                let end_delta: i64 = if self.start_byte_index as i64 >= sel.end as i64 {
                    self.start_byte_index as i64 - sel.end as i64
                } else {
                    sel.end as i64 - self.start_byte_index as i64
                };
                if end_delta <= start_delta && end_delta < 2 {
                    TouchAction::DragSelectionEnd
                } else if start_delta < 2 {
                    TouchAction::DragSelectionStart
                } else {
                    TouchAction::Drag
                }
            },
            None => TouchAction::Drag,
        };
        from_down
    }
}

/// The pixel delta a touch motion reports: incremental since the last motion
/// for established drags, from the down position while the touch may still
/// be a tap.
pub open spec fn spec_touch_motion_delta(ts: TouchState, pos: Position) -> Position {
    if ts.action != TouchAction::Tap {
        Position {
            x: (pos.x - ts.last_motion_position.x) as i64,
            y: (pos.y - ts.last_motion_position.y) as i64,
        }
    } else {
        Position { x: (pos.x - ts.last_position.x) as i64, y: (pos.y - ts.last_position.y) as i64 }
    }
}

/// The touch state before any touch was seen.
pub open spec fn initial_touch_state() -> TouchState {
    TouchState {
        action: TouchAction::Tap,
        last_time: 0,
        last_position: Position { x: 0, y: 0 },
        last_motion_position: Position { x: 0, y: 0 },
        start_byte_index: 0,
    }
}

/// Text input field.
pub struct TextField {
    /// The content, always valid UTF-8.
    pub text: Vec<u8>,
    /// Cursor anchor, as the shaping collaborator reported it.
    pub cursor_index: i32,
    /// Signed character-count adjustment to the cursor anchor.
    pub cursor_offset: i32,
    /// How far the content is shifted left of the viewport, in pixels; at most 0.
    pub scroll_offset: i64,
    /// The selected byte range, when one exists.
    pub selection: Option<Selection>,
    /// Classifier state for the running touch sequence.
    pub touch_state: TouchState,
    /// Uncommitted input-method composition text.
    pub preedit_text: Vec<u8>,
    /// Character offset of the composition cursor start within the preedit.
    pub preedit_begin: i32,
    /// Character offset of the composition cursor end within the preedit.
    pub preedit_end: i32,
    /// Cause to report with the next input-method update, when one is pending.
    pub change_cause: Option<ChangeCause>,
    /// Configuration snapshot.
    pub config: Config,
    /// Viewport width in pixels.
    pub width: i64,
    /// Pixel position of each byte offset, as the shaping collaborator
    /// reported it for the current content; refreshed through
    /// [`TextField::refresh_layout`].
    pub positions: Vec<i64>,
    /// Content width in pixels, from the same layout snapshot.
    pub content_width: i64,
    /// Byte offsets where the shaping collaborator places cursor stops —
    /// grapheme cluster boundaries — for the current content, sanitized to a
    /// strictly increasing run of character boundaries framed by the buffer
    /// ends. Emptied by every edit and refilled through
    /// [`TextField::refresh_layout`]; while empty, cursor steps fall back to
    /// scalar boundaries.
    pub cursor_stops: Vec<i32>,
    /// Whether the field has keyboard focus.
    pub focused: bool,
    /// Whether the field must be redrawn.
    pub dirty: bool,
    /// Whether the input-method state must be re-pushed.
    pub text_input_dirty: bool,
    /// Whether an edit changed the text since the last layout refresh, so the
    /// scroll offset must be recomputed once fresh positions arrive.
    pub scroll_pending: bool,
}

/// Well-formedness of a cursor-stop snapshot for the given buffer: every
/// stop is a character boundary within the buffer, the run is strictly
/// increasing, and a non-empty run starts at the buffer start and ends at
/// the buffer end. Opaque so that operations which keep buffer and stops
/// untouched carry it without unfolding.
#[verifier::opaque]
pub open spec fn stops_wf(t: Seq<u8>, stops: Seq<i32>) -> bool {
    &&& forall|i: int|
        0 <= i < stops.len() ==> 0 <= #[trigger] stops[i] <= t.len() && is_char_boundary(
            t,
            stops[i] as int,
        )
    &&& forall|i: int| 0 < i < stops.len() ==> stops[i - 1] < #[trigger] stops[i]
    &&& stops.len() > 0 ==> stops[0] == 0 && stops.last() == t.len()
}

/// The cursor stops kept from a raw snapshot, scanning from index `i` with
/// `last` the most recently kept offset: an offset stays when it is strictly
/// above the previous one, strictly inside the buffer, and a character
/// boundary.
pub open spec fn spec_kept_stops(t: Seq<u8>, input: Seq<usize>, i: int, last: int) -> Seq<i32>
    decreases input.len() - i,
    when 0 <= i <= input.len()
{
    if i >= input.len() {
        Seq::<i32>::empty()
    } else {
        let v = input[i] as int;
        if last < v && v < t.len() && is_char_boundary(t, v) {
            seq![input[i] as i32] + spec_kept_stops(t, input, i + 1, v)
        } else {
            spec_kept_stops(t, input, i + 1, last)
        }
    }
}

/// A raw stop snapshot after sanitation: the kept offsets framed by the
/// buffer start and end.
pub open spec fn spec_sanitized_stops(t: Seq<u8>, input: Seq<usize>) -> Seq<i32> {
    if t.len() == 0 {
        seq![0i32]
    } else {
        seq![0i32] + spec_kept_stops(t, input, 0, 0) + seq![t.len() as i32]
    }
}

/// Every kept stop lies strictly between `last` and the buffer end, is a
/// character boundary, and the kept run is strictly increasing.
pub proof fn lemma_kept_stops_wf(t: Seq<u8>, input: Seq<usize>, i: int, last: int)
    requires
        0 <= i <= input.len(),
        0 <= last,
        t.len() <= MAX_TEXT_BYTES,
    ensures
        ({
            let kept = spec_kept_stops(t, input, i, last);
            &&& forall|j: int|
                0 <= j < kept.len() ==> last < #[trigger] kept[j] && kept[j] < t.len()
                    && is_char_boundary(t, kept[j] as int)
            &&& forall|j: int| 0 < j < kept.len() ==> kept[j - 1] < #[trigger] kept[j]
        }),
    decreases input.len() - i,
{
    if i < input.len() {
        let v = input[i] as int;
        if last < v && v < t.len() && is_char_boundary(t, v) {
            lemma_kept_stops_wf(t, input, i + 1, v);
            let kept = spec_kept_stops(t, input, i, last);
            let rest = spec_kept_stops(t, input, i + 1, v);
            assert(input[i] as i32 == v);
            assert(kept[0] == input[i] as i32);
            assert(forall|j: int| 0 < j < kept.len() ==> kept[j] == rest[j - 1]);
            assert(forall|j: int|
                0 <= j < kept.len() ==> last < #[trigger] kept[j] && kept[j] < t.len()
                    && is_char_boundary(t, kept[j] as int));
            assert(forall|j: int| 0 < j < kept.len() ==> kept[j - 1] < #[trigger] kept[j]);
        } else {
            lemma_kept_stops_wf(t, input, i + 1, last);
            assert(spec_kept_stops(t, input, i, last) == spec_kept_stops(t, input, i + 1, last));
        }
    } else {
        assert(spec_kept_stops(t, input, i, last) =~= Seq::<i32>::empty());
    }
}

/// A sanitized stop snapshot is well formed for the buffer it was filtered
/// against.
pub proof fn lemma_sanitized_stops_wf(t: Seq<u8>, input: Seq<usize>)
    requires
        valid_utf8(t),
        t.len() <= MAX_TEXT_BYTES,
    ensures
        stops_wf(t, spec_sanitized_stops(t, input)),
{
    reveal(stops_wf);
    assert(is_char_boundary(t, 0));
    assert(is_char_boundary(t, t.len() as int));
    let all = spec_sanitized_stops(t, input);
    if t.len() == 0 {
    } else {
        lemma_kept_stops_wf(t, input, 0, 0);
        let kept = spec_kept_stops(t, input, 0, 0);
        assert(all.len() == kept.len() + 2);
        assert(all[0] == 0);
        assert(all.last() == t.len() as i32);
        assert(forall|j: int| 0 < j < all.len() - 1 ==> all[j] == #[trigger] kept[j - 1]);
    }
}

/// An empty stop snapshot is well formed for any buffer.
pub proof fn lemma_stops_wf_empty(t: Seq<u8>)
    ensures
        stops_wf(t, Seq::<i32>::empty()),
{
    reveal(stops_wf);
}

/// The smallest scroll offset the content allows:
/// `-max(content_width - width, 0)`.
pub open spec fn spec_min_scroll(content_width: i64, width: i64) -> int {
    if content_width > width {
        -(content_width - width)
    } else {
        0
    }
}

/// The scroll offset after clamping into `[-max(content_width - width, 0), 0]`.
pub open spec fn spec_clamp_scroll(off: int, content_width: i64, width: i64) -> int {
    let m = spec_min_scroll(content_width, width);
    let top = if off > 0 {
        0
    } else {
        off
    };
    if top < m {
        m
    } else {
        top
    }
}

/// The scroll offset after shifting the viewport so the pixel position `x`
/// becomes visible: positions past the right edge scroll left by the
/// overflow, positions left of the viewport land at its left edge.
pub open spec fn spec_adjust_to(off: int, x: int, width: i64) -> int {
    if x + off - width > 0 {
        off - (x + off - width)
    } else if x + off < 0 {
        -x
    } else {
        off
    }
}

/// The field after one single-position scroll adjustment towards `x`,
/// clamped to the content bounds, with the redraw flag raised when the
/// offset moved.
pub open spec fn spec_scrolled_to(f: TextField, x: int) -> TextField {
    let adjusted = spec_adjust_to(f.scroll_offset as int, x, f.width);
    let clamped = spec_clamp_scroll(adjusted, f.content_width, f.width);
    TextField {
        scroll_offset: clamped as i64,
        dirty: f.dirty || adjusted != f.scroll_offset || clamped != adjusted,
        ..f
    }
}

/// The field after recentering the viewport on the currently interesting
/// positions, in the fixed start-then-end order.
pub open spec fn spec_update_scroll(f: TextField) -> TextField {
    match f.selection {
        Some(s) => {
            let f1 = spec_scrolled_to(f, f.spec_position_x(s.start as int));
            spec_scrolled_to(f1, f1.spec_position_x(s.end as int))
        },
        None => {
            if f.preedit_text@.len() == 0 {
                spec_scrolled_to(f, f.spec_position_x(f.spec_cursor_byte()))
            } else {
                let f1 = spec_scrolled_to(f, f.spec_position_x(f.preedit_begin as int));
                spec_scrolled_to(f1, f1.spec_position_x(f.preedit_end as int))
            }
        },
    }
}

/// The byte offset that a dual `(index, offset)` cursor pair names: the sum,
/// clamped into the buffer and snapped forward to a character boundary.
pub open spec fn spec_byte_index_of(t: Seq<u8>, index: i32, offset: i32) -> int {
    let raw = index + offset;
    let clamped = if raw < 0 {
        0
    } else if raw > t.len() {
        t.len() as int
    } else {
        raw
    };
    spec_snap_forward(t, clamped)
}

/// The buffer content after deleting the active selection, when one exists.
pub open spec fn spec_text_after_selection_delete(f: TextField) -> Seq<u8> {
    match f.selection {
        Some(s) => f.text@.subrange(0, s.start as int) + f.text@.subrange(
            s.end as int,
            f.text@.len() as int,
        ),
        None => f.text@,
    }
}

/// The cursor byte offset after deleting the active selection, when one
/// exists; the deletion rule always leaves the cursor at the selection start.
pub open spec fn spec_cursor_after_selection_delete(f: TextField) -> int {
    match f.selection {
        Some(s) => s.start as int,
        None => f.spec_cursor_byte(),
    }
}

/// The start of the byte range an input-method surrounding-delete removes:
/// `before` bytes left of the cursor, clamped to the buffer start and snapped
/// forward so no character is split.
pub open spec fn spec_delete_surrounding_start(t: Seq<u8>, cursor: int, before: u32) -> int {
    let raw = if before > cursor {
        0
    } else {
        cursor - before
    };
    spec_snap_forward(t, raw)
}

/// The end of the byte range an input-method surrounding-delete removes:
/// `after` bytes right of the cursor, clamped to the buffer end and snapped
/// back so no character is split.
pub open spec fn spec_delete_surrounding_end(t: Seq<u8>, cursor: int, after: u32) -> int {
    let raw = if cursor + after > t.len() {
        t.len() as int
    } else {
        cursor + after
    };
    crate::unicode::spec_snap_back(t, raw)
}

/// The field after clearing the selection.
pub open spec fn spec_clear_selection(f: TextField) -> TextField {
    TextField { selection: None, text_input_dirty: true, dirty: true, ..f }
}

/// The field after installing the selection `[start, end)`: bounds clamped
/// into the buffer and snapped to boundaries, the selection scrolled into
/// view, or cleared when nothing remains between the bounds.
pub open spec fn spec_select(f: TextField, start: i32, end: i32) -> TextField {
    let t = f.text@;
    let s0 = if start < 0 {
        0
    } else if start > t.len() {
        t.len() as int
    } else {
        start as int
    };
    let e0 = if end < 0 {
        0
    } else if end > t.len() {
        t.len() as int
    } else {
        end as int
    };
    let s = spec_snap_forward(t, s0);
    let e = spec_snap_forward(t, e0);
    if s < e {
        TextField {
            text_input_dirty: true,
            dirty: true,
            ..spec_update_scroll(
                TextField {
                    selection: Some(Selection { start: s as i32, end: e as i32 }),
                    ..f
                },
            )
        }
    } else {
        spec_clear_selection(f)
    }
}

/// A key, as the keyboard layer reports it once the keysym is resolved.
#[derive(Copy, Clone, Debug, PartialEq, Eq, Structural)]
pub enum Key {
    Return,
    Left,
    Right,
    BackSpace,
    Delete,
    XF86Copy,
    XF86Paste,
    /// A key that produces the given character.
    Char(char),
    /// Any other key.
    Unhandled,
}

/// Modifier keys held during a key press.
#[derive(Copy, Clone, Debug, PartialEq, Eq, Structural)]
pub struct Modifiers {
    pub shift: bool,
    pub ctrl: bool,
    pub alt: bool,
    pub logo: bool,
}

/// Work a key press asks the surrounding shell to do: the field itself holds
/// no clipboard and no submit handler.
#[derive(Debug)]
pub enum KeyEffect {
    /// Hand the buffer content to the submit handler.
    Submit(Vec<u8>),
    /// Publish the given bytes as the new clipboard selection.
    CopyText(Vec<u8>),
    /// Read the clipboard and feed it back through [`TextField::paste`].
    RequestPaste,
}

/// The fields a key press never touches.
pub open spec fn spec_key_frame(pre: TextField, post: TextField) -> bool {
    &&& post.width == pre.width
    &&& post.positions == pre.positions
    &&& post.content_width == pre.content_width
    &&& post.config == pre.config
    &&& post.touch_state == pre.touch_state
    &&& post.preedit_text == pre.preedit_text
    &&& post.preedit_begin == pre.preedit_begin
    &&& post.preedit_end == pre.preedit_end
    &&& post.change_cause == pre.change_cause
}

/// Relation between the field before and after a backspace with no active
/// selection: one cursor step left — to the previous stop of the shaping
/// collaborator's snapshot — then removal of the bytes between the new and
/// the old cursor, so combining clusters are deleted as a unit.
pub open spec fn spec_backspace_rel(pre: TextField, post: TextField) -> bool {
    let b0 = pre.spec_cursor_byte();
    let stepped = spec_move_once(
        pre.text@,
        pre.cursor_stops@,
        pre.cursor_index,
        pre.cursor_offset,
        -1i32,
    );
    let mid = TextField { cursor_index: stepped.0, cursor_offset: stepped.1, ..pre };
    let b1 = spec_byte_index_of(pre.text@, stepped.0, stepped.1);
    &&& post.text@ == pre.text@.subrange(0, b1) + pre.text@.subrange(b0, pre.text@.len() as int)
    &&& post.cursor_index == stepped.0
    &&& post.cursor_offset == stepped.1
    &&& post.selection is None
    &&& post.cursor_stops@.len() == 0
    &&& post.scroll_offset == spec_update_scroll(mid).scroll_offset
    &&& post.scroll_pending
    &&& post.text_input_dirty
    &&& post.dirty
    &&& post.focused == pre.focused
    &&& spec_key_frame(pre, post)
}

/// Relation between the field before and after a forward delete with no
/// active selection and the cursor not at the end: removal of the bytes up
/// to the next cursor stop — a whole combining cluster when the stop
/// snapshot says so — with the cursor anchored back at its start.
pub open spec fn spec_delete_forward_rel(pre: TextField, post: TextField) -> bool {
    let b0 = pre.spec_cursor_byte();
    let b1 = if b0 >= pre.text@.len() {
        b0
    } else if pre.cursor_stops@.len() == 0 {
        spec_snap_forward(pre.text@, b0 + 1)
    } else {
        let n = spec_next_stop(pre.cursor_stops@, b0);
        if n >= 0 {
            n
        } else {
            b0
        }
    };
    &&& post.text@ == pre.text@.subrange(0, b0) + pre.text@.subrange(b1, pre.text@.len() as int)
    &&& post.cursor_index == b0
    &&& post.cursor_offset == 0
    &&& post.selection is None
    &&& post.cursor_stops@.len() == 0
    &&& post.scroll_offset == pre.scroll_offset
    &&& post.scroll_pending
    &&& post.text_input_dirty
    &&& post.dirty
    &&& post.focused == pre.focused
    &&& spec_key_frame(pre, post)
}

/// Relation between the field before and after deleting the active selection
/// through a key press.
pub open spec fn spec_delete_selection_rel(pre: TextField, post: TextField, sel: Selection) -> bool {
    let t1 = pre.text@.subrange(0, sel.start as int) + pre.text@.subrange(
        sel.end as int,
        pre.text@.len() as int,
    );
    &&& post.text@ == t1
    &&& if sel.start > 0 && sel.start == t1.len() {
        post.cursor_index == sel.start - 1 && post.cursor_offset == 1
    } else {
        post.cursor_index == sel.start && post.cursor_offset == 0
    }
    &&& post.selection is None
    &&& post.cursor_stops@.len() == 0
    &&& post.scroll_offset == pre.scroll_offset
    &&& post.text_input_dirty
    &&& post.dirty
    &&& post.focused == pre.focused
    &&& spec_key_frame(pre, post)
}

/// Relation between the field before and after inserting one character at
/// the cursor, deleting any selection first: the character's encoding lands
/// at the cursor byte and the cursor steps past it.
pub open spec fn spec_insert_char_rel(pre: TextField, post: TextField, c: char) -> bool {
    let t1 = spec_text_after_selection_delete(pre);
    let cb = spec_cursor_after_selection_delete(pre);
    let enc = vstd::utf8::encode_scalar(c as u32);
    let t2 = t1.subrange(0, cb) + enc + t1.subrange(cb, t1.len() as int);
    &&& post.text@ == t2
    &&& post.cursor_index == cb + enc.len()
    &&& post.cursor_offset == 0
    &&& post.selection is None
    &&& post.cursor_stops@.len() == 0
    &&& post.scroll_offset == pre.scroll_offset
    &&& post.scroll_pending
    &&& post.text_input_dirty
    &&& post.dirty
    &&& post.focused == pre.focused
    &&& spec_key_frame(pre, post)
}

/// The classifier state after a touch-down: an unfocused field only takes
/// focus; otherwise a down within the multi-tap interval and the tap
/// distance of the previous down escalates `Tap` to `DoubleTap` to
/// `TripleTap`, and anything else resets to `Tap`. The down position, time
/// and hit byte become the new baseline.
pub open spec fn spec_touch_down(
    ts: TouchState,
    input: crate::config::Input,
    time: u32,
    pos: Position,
    byte_index: i32,
    focused: bool,
) -> TouchState {
    let within_time = ts.last_time + input.max_multi_tap.spec_millis() >= time;
    let within_dist = crate::geometry::spec_distance_squared(pos, ts.last_position)
        <= input.max_tap_distance;
    let action = if !focused {
        TouchAction::Focus
    } else if within_time && within_dist {
        match ts.action {
            TouchAction::Tap => TouchAction::DoubleTap,
            TouchAction::DoubleTap => TouchAction::TripleTap,
            _ => TouchAction::Tap,
        }
    } else {
        TouchAction::Tap
    };
    TouchState {
        action,
        last_time: time,
        last_position: pos,
        last_motion_position: pos,
        start_byte_index: byte_index,
    }
}

/// The classifier state after a touch motion: the motion position is always
/// recorded; a `Tap` that moves beyond the tap distance from the down
/// position becomes a drag per [`spec_drag_action`]. Other actions never
/// change on motion.
pub open spec fn spec_touch_motion(
    ts: TouchState,
    input: crate::config::Input,
    pos: Position,
    selection: Option<Selection>,
) -> TouchState {
    let action = if ts.action == TouchAction::Tap && crate::geometry::spec_distance_squared(
        pos,
        ts.last_position,
    ) > input.max_tap_distance {
        spec_drag_action(ts, selection)
    } else {
        ts.action
    };
    TouchState { action, last_motion_position: pos, ..ts }
}

/// The drag classification a `Tap` escalates to once motion leaves the tap
/// deadzone. The near-caret leeway compares byte positions: a touch that
/// started within two bytes of a selection boundary counts as grabbing that
/// caret.
pub open spec fn spec_drag_action(ts: TouchState, selection: Option<Selection>) -> TouchAction {
    match selection {
        Some(sel) => {
            let start_delta = if ts.start_byte_index >= sel.start {
                ts.start_byte_index - sel.start
            } else {
                sel.start - ts.start_byte_index
            };
            let end_delta = if ts.start_byte_index >= sel.end {
                ts.start_byte_index - sel.end
            } else {
                sel.end - ts.start_byte_index
            };
            if end_delta <= start_delta && end_delta < 2 {
                TouchAction::DragSelectionEnd
            } else if start_delta < 2 {
                TouchAction::DragSelectionStart
            } else {
                TouchAction::Drag
            }
        },
        None => TouchAction::Drag,
    }
}

/// True when the character whose encoding starts at boundary `j` counts as
/// part of a word.
pub open spec fn spec_word_char_at(t: Seq<u8>, j: int) -> bool {
    crate::unicode::alphanumeric(crate::unicode::spec_char_at(t, j) as char)
}

/// True when `r` is where the word around the tapped boundary `tap` begins:
/// a boundary at or before `tap`, only word characters between it and `tap`,
/// and either the buffer start or a non-word character right before it.
pub open spec fn spec_word_start_at(t: Seq<u8>, r: int, tap: int) -> bool {
    &&& 0 <= r <= tap
    &&& is_char_boundary(t, r)
    &&& forall|j: int| r <= j < tap && is_char_boundary(t, j) ==> spec_word_char_at(t, j)
    &&& r > 0 ==> !spec_word_char_at(t, crate::unicode::spec_prev_boundary(t, r))
}

/// True when `r` is where the word around the tapped boundary `tap` ends:
/// a boundary at or after `tap`, only word characters between `tap` and it,
/// and either the buffer end or a non-word character at it.
pub open spec fn spec_word_end_at(t: Seq<u8>, r: int, tap: int) -> bool {
    &&& tap <= r <= t.len()
    &&& is_char_boundary(t, r)
    &&& forall|j: int| tap <= j < r && is_char_boundary(t, j) ==> spec_word_char_at(t, j)
    &&& r < t.len() ==> !spec_word_char_at(t, r)
}

/// The end of the surrounding-text window: up to half the byte budget after
/// the cursor, truncated to a character boundary.
pub open spec fn spec_surrounding_end(t: Seq<u8>, cb: int) -> int {
    let half = cb + MAX_SURROUNDING_BYTES / 2;
    if half >= t.len() {
        t.len() as int
    } else {
        crate::unicode::spec_snap_back(t, half)
    }
}

/// The start of the surrounding-text window: whatever budget the end left,
/// taken before the cursor and truncated to a character boundary.
pub open spec fn spec_surrounding_start(t: Seq<u8>, cb: int, end: int) -> int {
    let remaining = MAX_SURROUNDING_BYTES - (end - cb);
    let raw = if cb - remaining < 0 {
        0
    } else {
        cb - remaining
    };
    spec_snap_forward(t, raw)
}

/// The field after the focus step that ends every completed tap: focus is
/// taken, and a previously unfocused field selects its whole content.
pub open spec fn spec_focus_after_touch(f: TextField) -> TextField {
    TextField {
        focused: true,
        text_input_dirty: true,
        dirty: true,
        ..(if !f.focused {
            spec_select(f, 0, f.text@.len() as i32)
        } else {
            f
        })
    }
}

/// The field after a touch-motion event: the classifier runs first; a plain
/// drag then scrolls by the reported delta, and a selection-caret drag moves
/// that caret to the hit-tested byte — never onto the opposite caret, and
/// swapping roles when it crosses it.
pub open spec fn spec_field_touch_motion(
    f: TextField,
    position: Position,
    index: i32,
    offset: i32,
) -> TextField {
    let pos = Position {
        x: crate::geometry::spec_clamp_coord(position.x),
        y: crate::geometry::spec_clamp_coord(position.y),
    };
    let ts1 = spec_touch_motion(f.touch_state, f.config.input, pos, f.selection);
    let delta = spec_touch_motion_delta(f.touch_state, pos);
    let f1 = TextField { touch_state: ts1, change_cause: Some(ChangeCause::Other), ..f };
    if ts1.action == TouchAction::Drag {
        TextField {
            scroll_offset: spec_clamp_scroll(
                f.scroll_offset + delta.x,
                f.content_width,
                f.width,
            ) as i64,
            dirty: true,
            ..f1
        }
    } else if ts1.action == TouchAction::DragSelectionStart || ts1.action
        == TouchAction::DragSelectionEnd {
        match f.selection {
            None => f1,
            Some(sel) => spec_selection_drag(f, f1, ts1, sel, index, offset),
        }
    } else {
        f1
    }
}

/// The field after a selection-caret drag step: the dragged caret moves to
/// the hit-tested byte unless that would collapse the selection, and crossing
/// the opposite caret swaps which boundary is the start and which caret
/// further motion edits.
pub open spec fn spec_selection_drag(
    f: TextField,
    f1: TextField,
    ts1: TouchState,
    sel: Selection,
    index: i32,
    offset: i32,
) -> TextField {
    let b = spec_byte_index_of(f.text@, index, offset) as i32;
        let modifies_start = ts1.action == TouchAction::DragSelectionStart;
        let sel1 = if modifies_start && b != sel.end {
            Selection { start: b, end: sel.end }
        } else if !modifies_start && b != sel.start {
            Selection { start: sel.start, end: b }
        } else {
            sel
        };
        let swapped = sel1.start > sel1.end;
        let sel2 = if swapped {
            Selection { start: sel1.end, end: sel1.start }
        } else {
            sel1
        };
        let act2 = if swapped {
            if modifies_start {
                TouchAction::DragSelectionEnd
            } else {
                TouchAction::DragSelectionStart
            }
        } else {
            ts1.action
        };
        let f2 = TextField {
            selection: Some(sel2),
            touch_state: TouchState { action: act2, ..ts1 },
            ..f1
        };
        TextField { text_input_dirty: true, dirty: true, ..spec_update_scroll(f2) }
}

/// The largest cursor stop strictly below `byte`, or `-1` when there is none.
pub open spec fn spec_prev_stop(stops: Seq<i32>, byte: int) -> int
    decreases stops.len(),
{
    if stops.len() == 0 {
        -1
    } else if stops.last() < byte {
        stops.last() as int
    } else {
        spec_prev_stop(stops.drop_last(), byte)
    }
}

/// The smallest cursor stop strictly above `byte`, or `-1` when there is none.
pub open spec fn spec_next_stop(stops: Seq<i32>, byte: int) -> int
    decreases stops.len(),
{
    if stops.len() == 0 {
        -1
    } else if stops.first() > byte {
        stops.first() as int
    } else {
        spec_next_stop(stops.drop_first(), byte)
    }
}

/// What [`spec_prev_stop`] finds: a value below `byte` that, when it is not
/// the `-1` sentinel, is one of the stops; with the buffer start among the
/// stops it exists for every positive `byte`.
pub proof fn lemma_prev_stop(stops: Seq<i32>, byte: int)
    requires
        byte >= 0,
        forall|i: int| 0 <= i < stops.len() ==> #[trigger] stops[i] >= 0,
    ensures
        spec_prev_stop(stops, byte) < byte,
        spec_prev_stop(stops, byte) >= 0 ==> exists|i: int|
            0 <= i < stops.len() && stops[i] == spec_prev_stop(stops, byte),
        (stops.len() > 0 && stops[0] == 0 && byte > 0) ==> spec_prev_stop(stops, byte) >= 0,
    decreases stops.len(),
{
    if stops.len() == 0 {
    } else if stops.last() < byte {
        assert(stops[stops.len() - 1] == spec_prev_stop(stops, byte));
    } else {
        lemma_prev_stop(stops.drop_last(), byte);
        assert(spec_prev_stop(stops, byte) == spec_prev_stop(stops.drop_last(), byte));
        if spec_prev_stop(stops.drop_last(), byte) >= 0 {
            let i = choose|i: int|
                0 <= i < stops.drop_last().len() && stops.drop_last()[i] == spec_prev_stop(
                    stops.drop_last(),
                    byte,
                );
            assert(stops[i] == spec_prev_stop(stops, byte));
        }
        if stops[0] == 0 && byte > 0 {
            if stops.len() == 1 {
                assert(stops.last() == stops[0]);
                assert(false);
            } else {
                assert(stops.drop_last().len() > 0);
                assert(stops.drop_last()[0] == 0);
            }
        }
    }
}

/// What [`spec_next_stop`] finds: a value above `byte` that, when it is not
/// the `-1` sentinel, is one of the stops; with a stop above `byte` present
/// it exists.
pub proof fn lemma_next_stop(stops: Seq<i32>, byte: int)
    requires
        forall|i: int| 0 <= i < stops.len() ==> #[trigger] stops[i] >= 0,
    ensures
        spec_next_stop(stops, byte) == -1 || spec_next_stop(stops, byte) > byte,
        spec_next_stop(stops, byte) >= 0 ==> exists|i: int|
            0 <= i < stops.len() && stops[i] == spec_next_stop(stops, byte),
        (stops.len() > 0 && stops.last() > byte) ==> spec_next_stop(stops, byte) >= 0,
    decreases stops.len(),
{
    if stops.len() == 0 {
    } else if stops.first() > byte {
        assert(stops[0] == spec_next_stop(stops, byte));
    } else {
        lemma_next_stop(stops.drop_first(), byte);
        assert(spec_next_stop(stops, byte) == spec_next_stop(stops.drop_first(), byte));
        if spec_next_stop(stops.drop_first(), byte) >= 0 {
            let i = choose|i: int|
                0 <= i < stops.drop_first().len() && stops.drop_first()[i] == spec_next_stop(
                    stops.drop_first(),
                    byte,
                );
            assert(stops[i + 1] == spec_next_stop(stops, byte));
        }
        if stops.last() > byte {
            if stops.len() == 1 {
                assert(stops.first() == stops.last());
                assert(false);
            } else {
                assert(stops.drop_first().len() > 0);
                assert(stops.drop_first().last() == stops.last());
            }
        }
    }
}

/// One cursor step from the dual `(index, offset)` representation: in the
/// sign's direction to the adjacent cursor stop of the shaping collaborator
/// — a grapheme cluster boundary, so combining sequences are crossed as a
/// unit — or unchanged at the buffer's ends. Without a stop snapshot the
/// step falls back to the adjacent scalar boundary.
pub open spec fn spec_move_once(t: Seq<u8>, stops: Seq<i32>, ci: i32, co: i32, dir: i32) -> (
    i32,
    i32,
) {
    let b = spec_byte_index_of(t, ci, co);
    if dir > 0 {
        if b >= t.len() {
            (ci, co)
        } else if stops.len() == 0 {
            (spec_snap_forward(t, b + 1) as i32, 0)
        } else {
            let s = spec_next_stop(stops, b);
            if s >= 0 {
                (s as i32, 0)
            } else {
                (ci, co)
            }
        }
    } else {
        if b <= 0 {
            (ci, co)
        } else if stops.len() == 0 {
            (crate::unicode::spec_prev_boundary(t, b) as i32, 0)
        } else {
            let s = spec_prev_stop(stops, b);
            if s >= 0 {
                (s as i32, 0)
            } else {
                (ci, co)
            }
        }
    }
}

/// The cursor after `n` single steps in the sign of `dir`.
pub open spec fn spec_move_cursor(t: Seq<u8>, stops: Seq<i32>, ci: i32, co: i32, n: int, dir: i32) -> (
    i32,
    i32,
)
    decreases n,
{
    if n <= 0 {
        (ci, co)
    } else {
        let step = spec_move_once(t, stops, ci, co, dir);
        spec_move_cursor(t, stops, step.0, step.1, n - 1, dir)
    }
}

/// Sanitizes a raw cursor-stop snapshot against the buffer: keeps only
/// strictly increasing character boundaries inside it, framed by the buffer
/// start and end.
fn sanitize_stops(text: &Vec<u8>, stops: &Vec<usize>) -> (r: Vec<i32>)
    requires
        vstd::utf8::valid_utf8(text@),
        text@.len() <= MAX_TEXT_BYTES,
    ensures
        r@ == spec_sanitized_stops(text@, stops@),
        stops_wf(text@, r@),
{
    let ghost t = text@;
    let mut kept: Vec<i32> = Vec::new();
    kept.push(0);
    let mut last: usize = 0;
    let mut si: usize = 0;
    proof {
        assert(kept@ =~= seq![0i32]);
    }
    while si < stops.len()
        invariant
            vstd::utf8::valid_utf8(t),
            t.len() <= MAX_TEXT_BYTES,
            text@ == t,
            si <= stops@.len(),
            last < t.len() || last == 0,
            kept@.len() >= 1,
            seq![0i32] + spec_kept_stops(t, stops@, 0, 0) == kept@ + spec_kept_stops(
                t,
                stops@,
                si as int,
                last as int,
            ),
        decreases stops@.len() - si,
    {
        let v = stops[si];
        if v > last && v < text.len() && crate::unicode::is_boundary(text, v) {
            kept.push(v as i32);
            proof {
                assert(kept@ + spec_kept_stops(t, stops@, si + 1, v as int) =~= kept@.drop_last()
                    + (seq![stops@[si as int] as i32] + spec_kept_stops(
                    t,
                    stops@,
                    si + 1,
                    v as int,
                )));
            }
            last = v;
        }
        si += 1;
    }
    proof {
        assert(spec_kept_stops(t, stops@, stops@.len() as int, last as int)
            =~= Seq::<i32>::empty());
        assert(kept@ =~= seq![0i32] + spec_kept_stops(t, stops@, 0, 0));
    }
    if text.len() > 0 {
        kept.push(text.len() as i32);
        proof {
            assert(kept@ =~= (seq![0i32] + spec_kept_stops(t, stops@, 0, 0)) + seq![
                t.len() as i32,
            ]);
            assert(kept@ =~= spec_sanitized_stops(t, stops@));
        }
    } else {
        proof {
            lemma_kept_stops_wf(t, stops@, 0, 0);
            assert(spec_kept_stops(t, stops@, 0, 0).len() == 0) by {
                if spec_kept_stops(t, stops@, 0, 0).len() > 0 {
                    assert(0 < spec_kept_stops(t, stops@, 0, 0)[0]);
                    assert(spec_kept_stops(t, stops@, 0, 0)[0] < t.len());
                }
            }
            assert(kept@ =~= spec_sanitized_stops(t, stops@));
        }
    }
    proof {
        lemma_sanitized_stops_wf(t, stops@);
    }
    kept
}

/// Finds the largest cursor stop strictly below `byte`, or `-1` when the
/// snapshot holds none.
fn prev_stop_in(stops: &Vec<i32>, byte: i64) -> (r: i64)
    ensures
        r == spec_prev_stop(stops@, byte as int),
{
    proof {
        assert(stops@.subrange(0, stops@.len() as int) =~= stops@);
    }
    let mut i = stops.len();
    while i > 0
        invariant
            i <= stops@.len(),
            spec_prev_stop(stops@, byte as int) == spec_prev_stop(
                stops@.subrange(0, i as int),
                byte as int,
            ),
        decreases i,
    {
        if (stops[i - 1] as i64) < byte {
            proof {
                assert(stops@.subrange(0, i as int).last() == stops@[i - 1]);
            }
            return stops[i - 1] as i64;
        }
        proof {
            assert(stops@.subrange(0, i as int).last() == stops@[i - 1]);
            assert(stops@.subrange(0, i as int).drop_last() =~= stops@.subrange(0, i - 1));
        }
        i -= 1;
    }
    proof {
        assert(stops@.subrange(0, 0) =~= Seq::<i32>::empty());
    }
    -1
}

/// Finds the smallest cursor stop strictly above `byte`, or `-1` when the
/// snapshot holds none.
fn next_stop_in(stops: &Vec<i32>, byte: i64) -> (r: i64)
    ensures
        r == spec_next_stop(stops@, byte as int),
{
    proof {
        assert(stops@.subrange(0, stops@.len() as int) =~= stops@);
    }
    let mut i: usize = 0;
    while i < stops.len()
        invariant
            i <= stops@.len(),
            spec_next_stop(stops@, byte as int) == spec_next_stop(
                stops@.subrange(i as int, stops@.len() as int),
                byte as int,
            ),
        decreases stops@.len() - i,
    {
        if (stops[i] as i64) > byte {
            proof {
                assert(stops@.subrange(i as int, stops@.len() as int).first() == stops@[i as int]);
            }
            return stops[i] as i64;
        }
        proof {
            assert(stops@.subrange(i as int, stops@.len() as int).first() == stops@[i as int]);
            assert(stops@.subrange(i as int, stops@.len() as int).drop_first() =~= stops@.subrange(
                i + 1,
                stops@.len() as int,
            ));
        }
        i += 1;
    }
    proof {
        assert(stops@.subrange(stops@.len() as int, stops@.len() as int) =~= Seq::<i32>::empty());
    }
    -1
}

/// Finds where the word around the tapped boundary begins: scans left over
/// word characters to the buffer start or the first non-word character.
fn word_start_from(text: &Vec<u8>, tap: usize) -> (r: usize)
    requires
        valid_utf8(text@),
        tap <= text@.len(),
        is_char_boundary(text@, tap as int),
    ensures
        spec_word_start_at(text@, r as int, tap as int),
        r <= tap,
{
    broadcast use vstd::utf8::char_u32_cast;

    let mut j = tap;
    while j > 0
        invariant
            valid_utf8(text@),
            j <= tap <= text@.len(),
            is_char_boundary(text@, j as int),
            forall|m: int|
                j <= m < tap && is_char_boundary(text@, m) ==> spec_word_char_at(text@, m),
        decreases j,
    {
        let k = crate::unicode::prev_boundary(text, j);
        let c = crate::unicode::decode_char_at(text, k);
        if !crate::unicode::char_is_alphanumeric(c) {
            proof {
                crate::unicode::lemma_prev_boundary(text@, j as int);
            }
            return j;
        }
        proof {
            crate::unicode::lemma_prev_boundary(text@, j as int);
            assert(spec_word_char_at(text@, k as int));
        }
        j = k;
    }
    j
}

/// Finds where the word around the tapped boundary ends: scans right over
/// word characters to the buffer end or the first non-word character.
fn word_end_from(text: &Vec<u8>, tap: usize) -> (r: usize)
    requires
        valid_utf8(text@),
        tap <= text@.len(),
        is_char_boundary(text@, tap as int),
    ensures
        spec_word_end_at(text@, r as int, tap as int),
        tap <= r <= text@.len(),
{
    broadcast use vstd::utf8::char_u32_cast;

    let mut j = tap;
    while j < text.len()
        invariant
            valid_utf8(text@),
            tap <= j <= text@.len(),
            is_char_boundary(text@, j as int),
            forall|m: int|
                tap <= m < j && is_char_boundary(text@, m) ==> spec_word_char_at(text@, m),
        decreases text@.len() - j,
    {
        let c = crate::unicode::decode_char_at(text, j);
        if !crate::unicode::char_is_alphanumeric(c) {
            return j;
        }
        let j2 = crate::unicode::next_boundary(text, j);
        proof {
            crate::unicode::lemma_snap_forward(text@, j + 1);
            assert(spec_word_char_at(text@, j as int));
        }
        j = j2;
    }
    j
}

/// A cursor that one step leaves in place is left in place by any number of
/// steps.
pub proof fn lemma_move_cursor_fixed(t: Seq<u8>, stops: Seq<i32>, ci: i32, co: i32, n: int, dir: i32)
    requires
        spec_move_once(t, stops, ci, co, dir) == (ci, co),
    ensures
        spec_move_cursor(t, stops, ci, co, n, dir) == (ci, co),
    decreases n,
{
    if n > 0 {
        lemma_move_cursor_fixed(t, stops, ci, co, n - 1, dir);
    }
}

/// Stepping `a + b` times is stepping `a` times, then `b` times.
pub proof fn lemma_move_cursor_split(
    t: Seq<u8>,
    stops: Seq<i32>,
    ci: i32,
    co: i32,
    a: int,
    b: int,
    dir: i32,
)
    requires
        a >= 0,
        b >= 0,
    ensures
        spec_move_cursor(t, stops, ci, co, a + b, dir) == ({
            let mid = spec_move_cursor(t, stops, ci, co, a, dir);
            spec_move_cursor(t, stops, mid.0, mid.1, b, dir)
        }),
    decreases a,
{
    if a > 0 {
        let step = spec_move_once(t, stops, ci, co, dir);
        lemma_move_cursor_split(t, stops, step.0, step.1, a - 1, b, dir);
    }
}

impl TextField {
    /// Structural invariant: the buffer is valid UTF-8, every stored index
    /// lies on a character boundary, and all pixel quantities are in range.
    pub open spec fn wf(&self) -> bool {
        &&& self.wf_dims()
        &&& spec_min_scroll(self.content_width, self.width) <= self.scroll_offset <= 0
    }

    /// [`TextField::wf`] without the scroll-offset bound, which resizing and
    /// layout refreshes may break until the next clamp restores it.
    pub open spec fn wf_dims(&self) -> bool {
        &&& valid_utf8(self.text@)
        &&& self.text@.len() <= MAX_TEXT_BYTES
        &&& match self.selection {
            Some(s) => 0 <= s.start < s.end <= self.text@.len() && is_char_boundary(
                self.text@,
                s.start as int,
            ) && is_char_boundary(self.text@, s.end as int),
            None => true,
        }
        &&& 0 <= self.width <= MAX_COORD
        &&& 0 <= self.content_width <= MAX_COORD
        &&& forall|i: int|
            0 <= i < self.positions@.len() ==> MIN_COORD <= #[trigger] self.positions@[i]
                <= MAX_COORD
        &&& position_in_range(self.touch_state.last_position)
        &&& position_in_range(self.touch_state.last_motion_position)
        &&& stops_wf(self.text@, self.cursor_stops@)
    }

    /// The byte offset of the cursor, derived from `(cursor_index,
    /// cursor_offset)`; always a character boundary.
    pub open spec fn spec_cursor_byte(&self) -> int {
        spec_byte_index_of(self.text@, self.cursor_index, self.cursor_offset)
    }

    /// A fresh, unfocused, empty field.
    pub fn new(config: Config) -> (f: Self)
        ensures
            f.wf(),
            f.text@ == Seq::<u8>::empty(),
            f.cursor_index == 0,
            f.cursor_offset == 0,
            f.scroll_offset == 0,
            f.selection is None,
            f.touch_state == initial_touch_state(),
            f.preedit_text@ == Seq::<u8>::empty(),
            f.change_cause is None,
            f.config == config,
            f.width == 0,
            f.positions@ == Seq::<i64>::empty(),
            f.content_width == 0,
            f.cursor_stops@ == Seq::<i32>::empty(),
            !f.focused,
            f.dirty,
            f.text_input_dirty,
            !f.scroll_pending,
    {
        proof {
            lemma_stops_wf_empty(Seq::<u8>::empty());
        }
        TextField {
            text: Vec::new(),
            cursor_index: 0,
            cursor_offset: 0,
            scroll_offset: 0,
            selection: None,
            touch_state: TouchState::new(),
            preedit_text: Vec::new(),
            preedit_begin: 0,
            preedit_end: 0,
            change_cause: None,
            config,
            width: 0,
            positions: Vec::new(),
            content_width: 0,
            cursor_stops: Vec::new(),
            focused: false,
            dirty: true,
            text_input_dirty: true,
            scroll_pending: false,
        }
    }

    /// The byte offset a `(index, offset)` pair from the shaping collaborator
    /// names in the current buffer, clamped and on a boundary.
    pub fn byte_index_of(&self, index: i32, offset: i32) -> (r: usize)
        requires
            self.wf_dims(),
        ensures
            r == spec_byte_index_of(self.text@, index, offset),
            r <= self.text@.len(),
            is_char_boundary(self.text@, r as int),
    {
        let raw: i64 = index as i64 + offset as i64;
        let clamped: usize = if raw < 0 {
            0
        } else if raw > self.text.len() as i64 {
            self.text.len()
        } else {
            raw as usize
        };
        snap_forward(&self.text, clamped)
    }

    /// The byte offset of the cursor.
    pub fn cursor_byte_index(&self) -> (r: usize)
        requires
            self.wf_dims(),
        ensures
            r == self.spec_cursor_byte(),
            r <= self.text@.len(),
            is_char_boundary(self.text@, r as int),
    {
        self.byte_index_of(self.cursor_index, self.cursor_offset)
    }

    /// Whether the field needs a redraw.
    pub fn dirty(&self) -> (r: bool)
        ensures
            r == self.dirty,
    {
        self.dirty
    }

    /// Reads and clears the redraw flag.
    pub fn take_dirty(&mut self) -> (r: bool)
        ensures
            r == old(self).dirty,
            *final(self) == (TextField { dirty: false, ..*old(self) }),
    {
        let r = self.dirty;
        self.dirty = false;
        r
    }

    /// Whether the input-method state must be re-pushed, clearing the flag.
    pub fn take_text_input_dirty(&mut self) -> (r: bool)
        ensures
            r == old(self).text_input_dirty,
            *final(self) == (TextField { text_input_dirty: false, ..*old(self) }),
    {
        let r = self.text_input_dirty;
        self.text_input_dirty = false;
        r
    }

    /// The current focus state.
    pub fn focused(&self) -> (r: bool)
        ensures
            r == self.focused,
    {
        self.focused
    }

    /// A copy of the buffer content.
    pub fn text(&self) -> (r: Vec<u8>)
        ensures
            r@ == self.text@,
    {
        let mut out: Vec<u8> = Vec::new();
        let mut i: usize = 0;
        while i < self.text.len()
            invariant
                i <= self.text@.len(),
                out@ == self.text@.subrange(0, i as int),
            decreases self.text@.len() - i,
        {
            out.push(self.text[i]);
            i += 1;
            proof {
                assert(out@ =~= self.text@.subrange(0, i as int));
            }
        }
        proof {
            assert(self.text@.subrange(0, self.text@.len() as int) =~= self.text@);
        }
        out
    }

    /// The current scroll offset in pixels; at most zero.
    pub fn scroll_offset(&self) -> (r: i64)
        ensures
            r == self.scroll_offset,
    {
        self.scroll_offset
    }

    /// The classification of the running touch sequence.
    pub fn touch_action(&self) -> (r: TouchAction)
        ensures
            r == self.touch_state.action,
    {
        self.touch_state.action
    }

    /// The current selection, when one exists.
    pub fn selection(&self) -> (r: Option<Selection>)
        ensures
            r == self.selection,
    {
        self.selection
    }

    /// The current preedit text with its cursor character offsets.
    pub fn preedit(&self) -> (r: (Vec<u8>, i32, i32))
        ensures
            r.0@ == self.preedit_text@,
            r.1 == self.preedit_begin,
            r.2 == self.preedit_end,
    {
        let mut out: Vec<u8> = Vec::new();
        let mut i: usize = 0;
        while i < self.preedit_text.len()
            invariant
                i <= self.preedit_text@.len(),
                out@ == self.preedit_text@.subrange(0, i as int),
            decreases self.preedit_text@.len() - i,
        {
            out.push(self.preedit_text[i]);
            i += 1;
            proof {
                assert(out@ =~= self.preedit_text@.subrange(0, i as int));
            }
        }
        proof {
            assert(self.preedit_text@.subrange(0, self.preedit_text@.len() as int)
                =~= self.preedit_text@);
        }
        (out, self.preedit_begin, self.preedit_end)
    }

    /// Reads the pending change cause, resetting it; an unset cause defaults
    /// to [`ChangeCause::InputMethod`].
    pub fn take_change_cause(&mut self) -> (r: ChangeCause)
        ensures
            *final(self) == (TextField { change_cause: None, ..*old(self) }),
            r == match old(self).change_cause {
                Some(c) => c,
                None => ChangeCause::InputMethod,
            },
    {
        let r = match self.change_cause {
            Some(c) => c,
            None => ChangeCause::InputMethod,
        };
        self.change_cause = None;
        r
    }

    /// The pixel position of a byte offset, read from the layout snapshot;
    /// offsets outside the snapshot are clamped to its edges, and an empty
    /// snapshot places everything at zero.
    pub open spec fn spec_position_x(&self, byte: int) -> int {
        if self.positions@.len() == 0 {
            0
        } else {
            let i = if byte < 0 {
                0
            } else if byte >= self.positions@.len() {
                self.positions@.len() - 1
            } else {
                byte
            };
            self.positions@[i] as int
        }
    }

    /// The pixel position of a byte offset, read from the layout snapshot.
    pub fn position_x(&self, byte: usize) -> (r: i64)
        requires
            self.wf_dims(),
        ensures
            r == self.spec_position_x(byte as int),
            MIN_COORD <= r <= MAX_COORD,
    {
        if self.positions.len() == 0 {
            0
        } else {
            let i: usize = if byte >= self.positions.len() {
                self.positions.len() - 1
            } else {
                byte
            };
            self.positions[i]
        }
    }

    /// Clamps the scroll offset into `[-max(content_width - width, 0), 0]`,
    /// marking the field dirty when that moved it.
    fn clamp_scroll_offset(&mut self)
        requires
            0 <= old(self).width <= MAX_COORD,
            0 <= old(self).content_width <= MAX_COORD,
        ensures
            *final(self) == (TextField {
                scroll_offset: spec_clamp_scroll(
                    old(self).scroll_offset as int,
                    old(self).content_width,
                    old(self).width,
                ) as i64,
                dirty: old(self).dirty || spec_clamp_scroll(
                    old(self).scroll_offset as int,
                    old(self).content_width,
                    old(self).width,
                ) != old(self).scroll_offset,
                ..*old(self)
            }),
            spec_min_scroll(final(self).content_width, final(self).width) <= final(self).scroll_offset
                <= 0,
    {
        let min_offset: i64 = if self.content_width > self.width {
            -(self.content_width - self.width)
        } else {
            0
        };
        let mut clamped = self.scroll_offset;
        if clamped > 0 {
            clamped = 0;
        }
        if clamped < min_offset {
            clamped = min_offset;
        }
        self.dirty = self.dirty || clamped != self.scroll_offset;
        self.scroll_offset = clamped;
    }

    /// Shifts the scroll offset so that the pixel position `x` lands inside
    /// the viewport, then clamps to the content bounds.
    ///
    /// When `x` lies within the content and the content is at least as wide
    /// as the viewport, the position ends up visible: `x + scroll_offset`
    /// lands in `[0, width]`.
    fn update_scroll_offset_to(&mut self, x: i64)
        requires
            old(self).wf_dims(),
            MIN_COORD <= old(self).scroll_offset <= 0,
            MIN_COORD <= x <= MAX_COORD,
        ensures
            final(self).wf(),
            *final(self) == spec_scrolled_to(*old(self), x as int),
            (0 <= x <= old(self).content_width && old(self).content_width >= old(self).width)
                ==> 0 <= x + final(self).scroll_offset <= old(self).width,
    {
        let delta = x + self.scroll_offset - self.width;
        if delta > 0 {
            self.scroll_offset = self.scroll_offset - delta;
            self.dirty = true;
        } else if x + self.scroll_offset < 0 {
            self.scroll_offset = -x;
            self.dirty = true;
        }
        self.clamp_scroll_offset();
    }

    /// Recenters the viewport on the currently interesting positions: both
    /// selection boundaries when a selection exists, else both preedit
    /// boundaries when a composition is active, else the cursor. Boundaries
    /// are made visible in start-then-end order, so with content wider than
    /// the viewport the later boundary wins.
    fn update_scroll_offset(&mut self)
        requires
            old(self).wf_dims(),
            MIN_COORD <= old(self).scroll_offset <= 0,
        ensures
            final(self).wf(),
            *final(self) == spec_update_scroll(*old(self)),
            ({
                let x = old(self).spec_position_x(old(self).spec_cursor_byte());
                (old(self).selection is None && old(self).preedit_text@.len() == 0 && 0 <= x
                    <= old(self).content_width && old(self).content_width >= old(self).width)
                    ==> 0 <= x + final(self).scroll_offset <= old(self).width
            }),
    {
        match self.selection {
            Some(sel) => {
                let s0: usize = if sel.start < 0 {
                    0
                } else {
                    sel.start as usize
                };
                let x1 = self.position_x(s0);
                self.update_scroll_offset_to(x1);
                let e0: usize = if sel.end < 0 {
                    0
                } else {
                    sel.end as usize
                };
                let x2 = self.position_x(e0);
                self.update_scroll_offset_to(x2);
            },
            None => {
                if self.preedit_text.len() == 0 {
                    let byte = self.cursor_byte_index();
                    let x = self.position_x(byte);
                    self.update_scroll_offset_to(x);
                } else {
                    let b0: usize = if self.preedit_begin < 0 {
                        0
                    } else {
                        self.preedit_begin as usize
                    };
                    let x1 = self.position_x(b0);
                    self.update_scroll_offset_to(x1);
                    let e0: usize = if self.preedit_end < 0 {
                        0
                    } else {
                        self.preedit_end as usize
                    };
                    let x2 = self.position_x(e0);
                    self.update_scroll_offset_to(x2);
                }
            },
        }
    }

    /// Sets the viewport width and keeps the interesting positions visible.
    #[verifier::rlimit(50)]
    pub fn set_width(&mut self, width: i64)
        requires
            old(self).wf(),
        ensures
            final(self).wf(),
            *final(self) == (TextField {
                dirty: true,
                ..spec_update_scroll(
                    TextField {
                        width: if width < 0 {
                            0
                        } else if width > MAX_COORD {
                            MAX_COORD as i64
                        } else {
                            width
                        },
                        ..*old(self)
                    },
                )
            }),
    {
        self.width = if width < 0 {
            0
        } else if width > MAX_COORD {
            MAX_COORD
        } else {
            width
        };
        proof {
            assert(self.wf_dims());
        }
        self.update_scroll_offset();
        self.dirty = true;
    }

    /// Installs a fresh layout snapshot from the shaping collaborator: the
    /// pixel position of every byte offset and the content width. Runs the
    /// deferred scroll recomputation when an edit was waiting for it, and in
    /// any case keeps the offset within the new content bounds.
    pub fn refresh_layout(&mut self, positions: Vec<i64>, content_width: i64, stops: Vec<usize>)
        requires
            old(self).wf(),
        ensures
            final(self).wf(),
            !final(self).scroll_pending,
            final(self).positions@ == Seq::new(positions@.len(), |i: int|
                crate::geometry::spec_clamp_coord(positions@[i])),
            final(self).cursor_stops@ == spec_sanitized_stops(old(self).text@, stops@),
            ({
                let mid = TextField {
                    positions: final(self).positions,
                    content_width: if content_width < 0 {
                        0
                    } else if content_width > MAX_COORD {
                        MAX_COORD as i64
                    } else {
                        content_width
                    },
                    cursor_stops: final(self).cursor_stops,
                    ..*old(self)
                };
                if old(self).scroll_pending {
                    *final(self) == (TextField { scroll_pending: false, ..spec_update_scroll(mid) })
                } else {
                    *final(self) == (TextField {
                        scroll_offset: spec_clamp_scroll(
                            mid.scroll_offset as int,
                            mid.content_width,
                            mid.width,
                        ) as i64,
                        dirty: mid.dirty || spec_clamp_scroll(
                            mid.scroll_offset as int,
                            mid.content_width,
                            mid.width,
                        ) != mid.scroll_offset,
                        ..mid
                    })
                }
            }),
    {
        let mut clamped: Vec<i64> = Vec::new();
        let mut i: usize = 0;
        while i < positions.len()
            invariant
                i <= positions@.len(),
                clamped@.len() == i,
                forall|j: int|
                    0 <= j < i ==> clamped@[j] == crate::geometry::spec_clamp_coord(
                        #[trigger] positions@[j],
                    ),
            decreases positions@.len() - i,
        {
            clamped.push(crate::geometry::clamp_coord(positions[i]));
            i += 1;
        }
        proof {
            assert(clamped@ =~= Seq::new(positions@.len(), |j: int|
                crate::geometry::spec_clamp_coord(positions@[j])));
        }
        let sanitized = sanitize_stops(&self.text, &stops);
        self.cursor_stops = sanitized;
        self.positions = clamped;
        self.content_width = if content_width < 0 {
            0
        } else if content_width > MAX_COORD {
            MAX_COORD
        } else {
            content_width
        };
        if self.scroll_pending {
            proof {
                assert(self.wf_dims());
            }
            self.update_scroll_offset();
            self.scroll_pending = false;
        } else {
            self.clamp_scroll_offset();
        }
    }

    /// Installs the selection `[start, end)`. Bounds are clamped into the
    /// buffer and snapped to character boundaries; when nothing remains
    /// between them the selection is cleared instead. The selection is then
    /// scrolled into view.
    pub fn select(&mut self, start: i32, end: i32)
        requires
            old(self).wf(),
        ensures
            final(self).wf(),
            *final(self) == spec_select(*old(self), start, end),
            final(self).text@ == old(self).text@,
    {
        let s0: usize = if start < 0 {
            0
        } else if start as usize > self.text.len() {
            self.text.len()
        } else {
            start as usize
        };
        let e0: usize = if end < 0 {
            0
        } else if end as usize > self.text.len() {
            self.text.len()
        } else {
            end as usize
        };
        let s = snap_forward(&self.text, s0);
        let e = snap_forward(&self.text, e0);
        if s < e {
            self.selection = Some(Selection { start: s as i32, end: e as i32 });
            self.update_scroll_offset();
            self.text_input_dirty = true;
            self.dirty = true;
        } else {
            self.clear_selection();
        }
    }

    /// Selects the entire buffer, or clears the selection of an empty one.
    pub fn select_all(&mut self)
        requires
            old(self).wf(),
        ensures
            final(self).wf(),
            *final(self) == spec_select(*old(self), 0, old(self).text@.len() as i32),
            final(self).text@ == old(self).text@,
    {
        let len = self.text.len();
        self.select(0, len as i32);
    }

    /// Clears the text selection.
    pub fn clear_selection(&mut self)
        requires
            old(self).wf(),
        ensures
            final(self).wf(),
            *final(self) == spec_clear_selection(*old(self)),
            final(self).text@ == old(self).text@,
    {
        self.selection = None;
        self.text_input_dirty = true;
        self.dirty = true;
    }

    /// The selected text, when a selection exists.
    pub fn selection_text(&self) -> (r: Option<Vec<u8>>)
        requires
            self.wf(),
        ensures
            match self.selection {
                Some(s) => r matches Some(v) && v@ == self.text@.subrange(
                    s.start as int,
                    s.end as int,
                ),
                None => r is None,
            },
    {
        match self.selection {
            Some(s) => {
                let mut out: Vec<u8> = Vec::new();
                let mut i: usize = s.start as usize;
                while i < s.end as usize
                    invariant
                        self.wf(),
                        self.selection == Some(s),
                        s.start as usize <= i <= s.end as usize,
                        out@ == self.text@.subrange(s.start as int, i as int),
                    decreases s.end as int - i,
                {
                    out.push(self.text[i]);
                    i += 1;
                    proof {
                        assert(out@ =~= self.text@.subrange(s.start as int, i as int));
                    }
                }
                Some(out)
            },
            None => None,
        }
    }

    /// Deletes the byte range `sel` from the buffer and places the cursor at
    /// its start — except when the deleted range reached the end of a buffer
    /// that remains non-empty, where the cursor anchors one character before
    /// the start with `offset = 1`, so it stays visually attached to the last
    /// remaining character. Any stored selection is dropped.
    pub fn delete_selected(&mut self, sel: Selection)
        requires
            old(self).wf(),
            0 <= sel.start < sel.end <= old(self).text@.len(),
            is_char_boundary(old(self).text@, sel.start as int),
            is_char_boundary(old(self).text@, sel.end as int),
        ensures
            final(self).wf(),
            final(self).text@ == old(self).text@.subrange(0, sel.start as int) + old(
                self,
            ).text@.subrange(sel.end as int, old(self).text@.len() as int),
            ({
                let new_len = old(self).text@.len() - (sel.end - sel.start);
                if sel.start > 0 && sel.start == new_len {
                    final(self).cursor_index == sel.start - 1 && final(self).cursor_offset == 1
                } else {
                    final(self).cursor_index == sel.start && final(self).cursor_offset == 0
                }
            }),
            final(self).selection is None,
            final(self).cursor_stops@.len() == 0,
            final(self).text_input_dirty,
            final(self).dirty,
            final(self).scroll_pending == old(self).scroll_pending,
            final(self).scroll_offset == old(self).scroll_offset,
            final(self).width == old(self).width,
            final(self).positions == old(self).positions,
            final(self).content_width == old(self).content_width,
            final(self).focused == old(self).focused,
            final(self).config == old(self).config,
            final(self).touch_state == old(self).touch_state,
            final(self).preedit_text == old(self).preedit_text,
            final(self).preedit_begin == old(self).preedit_begin,
            final(self).preedit_end == old(self).preedit_end,
            final(self).change_cause == old(self).change_cause,
    {
        proof {
            crate::unicode::lemma_remove_range_valid(
                self.text@,
                sel.start as int,
                sel.end as int,
            );
        }
        crate::unicode::remove_range(&mut self.text, sel.start as usize, sel.end as usize);
        self.cursor_stops = Vec::new();
        proof {
            lemma_stops_wf_empty(self.text@);
        }
        self.selection = None;
        if sel.start > 0 && sel.start as usize == self.text.len() {
            self.cursor_index = sel.start - 1;
            self.cursor_offset = 1;
        } else {
            self.cursor_index = sel.start;
            self.cursor_offset = 0;
        }
        self.text_input_dirty = true;
        self.dirty = true;
    }

    /// Moves the cursor by up to `positions` single steps between the shaping
    /// collaborator's cursor stops — so combining clusters are crossed as a
    /// unit — stopping early at either end of the buffer, then scrolls the
    /// cursor into view. Without a stop snapshot, steps fall back to scalar
    /// boundaries.
    pub fn move_cursor(&mut self, positions: i32)
        requires
            old(self).wf(),
        ensures
            final(self).wf(),
            ({
                let count = if positions < 0 {
                    -(positions as int)
                } else {
                    positions as int
                };
                let moved = spec_move_cursor(
                    old(self).text@,
                    old(self).cursor_stops@,
                    old(self).cursor_index,
                    old(self).cursor_offset,
                    count,
                    positions,
                );
                *final(self) == (TextField {
                    text_input_dirty: true,
                    dirty: true,
                    ..spec_update_scroll(
                        TextField { cursor_index: moved.0, cursor_offset: moved.1, ..*old(self) },
                    )
                })
            }),
            final(self).text@ == old(self).text@,
    {
        let ghost t = self.text@;
        let ghost stops = self.cursor_stops@;
        let ghost ci0 = self.cursor_index;
        let ghost co0 = self.cursor_offset;
        let count: i64 = if positions < 0 {
            -(positions as i64)
        } else {
            positions as i64
        };
        let mut k: i64 = 0;
        let mut done = false;
        while k < count && !done
            invariant
                self.wf(),
                0 <= k <= count,
                count == if positions < 0 {
                    -(positions as int)
                } else {
                    positions as int
                },
                self.text@ == t,
                self.cursor_stops@ == stops,
                (self.cursor_index, self.cursor_offset) == spec_move_cursor(
                    t,
                    stops,
                    ci0,
                    co0,
                    k as int,
                    positions,
                ),
                done ==> spec_move_once(
                    t,
                    stops,
                    self.cursor_index,
                    self.cursor_offset,
                    positions,
                ) == (self.cursor_index, self.cursor_offset),
                *self == (TextField {
                    cursor_index: self.cursor_index,
                    cursor_offset: self.cursor_offset,
                    ..*old(self)
                }),
            decreases count - k, (if done {
                0int
            } else {
                1int
            }),
        {
            let b = self.cursor_byte_index();
            if positions > 0 {
                if b >= self.text.len() {
                    done = true;
                } else {
                    let target: i64;
                    if self.cursor_stops.len() == 0 {
                        target = crate::unicode::next_boundary(&self.text, b) as i64;
                    } else {
                        target = next_stop_in(&self.cursor_stops, b as i64);
                        proof {
                            assert(stops_wf(t, stops));
                            reveal(stops_wf);
                            lemma_next_stop(stops, b as int);
                            assert(stops.last() as int == t.len());
                            assert(target >= 0);
                            let w = choose|i: int|
                                0 <= i < stops.len() && stops[i] == spec_next_stop(
                                    stops,
                                    b as int,
                                );
                            assert(0 <= stops[w] <= t.len());
                        }
                    }
                    proof {
                        let mid = spec_move_cursor(t, stops, ci0, co0, k as int, positions);
                        let step = spec_move_once(t, stops, mid.0, mid.1, positions);
                        assert(step == (target as i32, 0i32));
                        assert(spec_move_cursor(t, stops, step.0, step.1, 0int, positions)
                            == step);
                        assert(spec_move_cursor(t, stops, mid.0, mid.1, 1int, positions) == step);
                        lemma_move_cursor_split(t, stops, ci0, co0, k as int, 1, positions);
                        assert(spec_move_cursor(t, stops, ci0, co0, k as int + 1, positions)
                            == step);
                    }
                    self.cursor_index = target as i32;
                    self.cursor_offset = 0;
                    k += 1;
                }
            } else {
                if b == 0 {
                    done = true;
                } else {
                    let target: i64;
                    if self.cursor_stops.len() == 0 {
                        target = crate::unicode::prev_boundary(&self.text, b) as i64;
                    } else {
                        target = prev_stop_in(&self.cursor_stops, b as i64);
                        proof {
                            assert(stops_wf(t, stops));
                            reveal(stops_wf);
                            lemma_prev_stop(stops, b as int);
                            assert(stops[0] == 0);
                            assert(target >= 0);
                            let w = choose|i: int|
                                0 <= i < stops.len() && stops[i] == spec_prev_stop(
                                    stops,
                                    b as int,
                                );
                            assert(0 <= stops[w] <= t.len());
                        }
                    }
                    proof {
                        let mid = spec_move_cursor(t, stops, ci0, co0, k as int, positions);
                        let step = spec_move_once(t, stops, mid.0, mid.1, positions);
                        assert(step == (target as i32, 0i32));
                        assert(spec_move_cursor(t, stops, step.0, step.1, 0int, positions)
                            == step);
                        assert(spec_move_cursor(t, stops, mid.0, mid.1, 1int, positions) == step);
                        lemma_move_cursor_split(t, stops, ci0, co0, k as int, 1, positions);
                        assert(spec_move_cursor(t, stops, ci0, co0, k as int + 1, positions)
                            == step);
                    }
                    self.cursor_index = target as i32;
                    self.cursor_offset = 0;
                    k += 1;
                }
            }
        }
        proof {
            if done {
                lemma_move_cursor_fixed(
                    t,
                    stops,
                    self.cursor_index,
                    self.cursor_offset,
                    (count - k) as int,
                    positions,
                );
                lemma_move_cursor_split(
                    t,
                    stops,
                    ci0,
                    co0,
                    k as int,
                    (count - k) as int,
                    positions,
                );
            }
        }
        self.update_scroll_offset();
        self.text_input_dirty = true;
        self.dirty = true;
    }

    /// Inserts text at the cursor, deleting any selection first, and places
    /// the cursor after the inserted bytes. The scroll recomputation waits
    /// for the next layout refresh.
    pub fn paste(&mut self, text: &str)
        requires
            old(self).wf(),
            old(self).text@.len() + 4 * text@.len() <= MAX_TEXT_BYTES,
        ensures
            final(self).wf(),
            ({
                let t1 = spec_text_after_selection_delete(*old(self));
                let cb = spec_cursor_after_selection_delete(*old(self));
                &&& final(self).text@ == t1.subrange(0, cb) + text.spec_bytes() + t1.subrange(
                    cb,
                    t1.len() as int,
                )
                &&& final(self).cursor_index == cb + text.spec_bytes().len()
                &&& final(self).cursor_offset == 0
            }),
            final(self).selection is None,
            final(self).cursor_stops@.len() == 0,
            final(self).scroll_pending,
            final(self).text_input_dirty,
            final(self).dirty,
            final(self).change_cause == old(self).change_cause,
            final(self).scroll_offset == old(self).scroll_offset,
            final(self).width == old(self).width,
            final(self).positions == old(self).positions,
            final(self).content_width == old(self).content_width,
            final(self).focused == old(self).focused,
            final(self).config == old(self).config,
            final(self).touch_state == old(self).touch_state,
            final(self).preedit_text == old(self).preedit_text,
            final(self).preedit_begin == old(self).preedit_begin,
            final(self).preedit_end == old(self).preedit_end,
    {
        broadcast use vstd::utf8::encode_utf8_valid_utf8;

        if let Some(sel) = self.selection {
            self.delete_selected(sel);
        } else {
            self.selection = None;
        }
        let bytes = text.as_bytes_vec();
        proof {
            crate::unicode::lemma_encode_utf8_len(text@);
        }
        let index = self.cursor_byte_index();
        proof {
            match old(self).selection {
                Some(s) => {
                    let told = old(self).text@;
                    let t1 = self.text@;
                    if s.start < t1.len() {
                        assert(s.end < told.len());
                        assert(t1[s.start as int] == told[s.end as int]);
                        assert(!vstd::utf8::is_continuation_byte(told[s.end as int]));
                        assert(is_char_boundary(t1, s.start as int));
                    }
                    assert(index == s.start);
                },
                None => {},
            }
            crate::unicode::lemma_insert_valid(self.text@, index as int, bytes@);
        }
        crate::unicode::insert_slice(&mut self.text, index, &bytes);
        self.cursor_stops = Vec::new();
        proof {
            lemma_stops_wf_empty(self.text@);
        }
        self.cursor_index = (index + bytes.len()) as i32;
        self.cursor_offset = 0;
        self.scroll_pending = true;
        self.text_input_dirty = true;
        self.dirty = true;
    }

    /// Inserts text committed by the input method at the cursor; the next
    /// surrounding-text update reports the input method as its cause.
    pub fn commit_string(&mut self, text: &str)
        requires
            old(self).wf(),
            old(self).text@.len() + 4 * text@.len() <= MAX_TEXT_BYTES,
        ensures
            final(self).wf(),
            ({
                let t1 = spec_text_after_selection_delete(*old(self));
                let cb = spec_cursor_after_selection_delete(*old(self));
                &&& final(self).text@ == t1.subrange(0, cb) + text.spec_bytes() + t1.subrange(
                    cb,
                    t1.len() as int,
                )
                &&& final(self).cursor_index == cb + text.spec_bytes().len()
                &&& final(self).cursor_offset == 0
            }),
            final(self).selection is None,
            final(self).cursor_stops@.len() == 0,
            final(self).scroll_pending,
            final(self).text_input_dirty,
            final(self).dirty,
            final(self).change_cause == Some(ChangeCause::InputMethod),
            final(self).scroll_offset == old(self).scroll_offset,
            final(self).width == old(self).width,
            final(self).positions == old(self).positions,
            final(self).content_width == old(self).content_width,
            final(self).focused == old(self).focused,
            final(self).config == old(self).config,
            final(self).touch_state == old(self).touch_state,
    {
        self.change_cause = Some(ChangeCause::InputMethod);
        self.paste(text);
    }

    /// Deletes up to `before_length` bytes before and `after_length` bytes
    /// after the cursor, as requested by the input method. The range is
    /// clamped to the buffer and snapped inward to character boundaries, so
    /// at most the requested amount is removed and no character is split.
    /// The cursor lands at the start of the removed range, and any active
    /// selection is dropped, since its bounds no longer describe the edited
    /// text.
    pub fn delete_surrounding_text(&mut self, before_length: u32, after_length: u32)
        requires
            old(self).wf(),
        ensures
            final(self).wf(),
            ({
                let t = old(self).text@;
                let cb = old(self).spec_cursor_byte();
                let start = spec_delete_surrounding_start(t, cb, before_length);
                let end = spec_delete_surrounding_end(t, cb, after_length);
                &&& final(self).text@ == t.subrange(0, start) + t.subrange(end, t.len() as int)
                &&& final(self).cursor_index == start
                &&& final(self).cursor_offset == 0
            }),
            final(self).selection is None,
            final(self).cursor_stops@.len() == 0,
            final(self).scroll_pending,
            final(self).text_input_dirty,
            final(self).dirty,
            final(self).change_cause == Some(ChangeCause::InputMethod),
            final(self).scroll_offset == old(self).scroll_offset,
            final(self).width == old(self).width,
            final(self).positions == old(self).positions,
            final(self).content_width == old(self).content_width,
            final(self).focused == old(self).focused,
            final(self).config == old(self).config,
            final(self).touch_state == old(self).touch_state,
            final(self).preedit_text == old(self).preedit_text,
    {
        let index = self.cursor_byte_index();
        let end0: usize = if (after_length as usize) > self.text.len() - index {
            self.text.len()
        } else {
            index + after_length as usize
        };
        let start0: usize = if (before_length as usize) > index {
            0
        } else {
            index - before_length as usize
        };
        let end = crate::unicode::snap_back(&self.text, end0);
        let start = snap_forward(&self.text, start0);
        proof {
            crate::unicode::lemma_snap_forward(self.text@, start0 as int);
            assert(start <= index) by {
                assert(is_char_boundary(self.text@, index as int));
            }
            assert(index <= end) by {
                if !is_char_boundary(self.text@, end0 as int) {
                    crate::unicode::lemma_prev_boundary(self.text@, end0 as int);
                }
            }
            crate::unicode::lemma_remove_range_valid(self.text@, start as int, end as int);
        }
        crate::unicode::remove_range(&mut self.text, start, end);
        self.cursor_stops = Vec::new();
        proof {
            lemma_stops_wf_empty(self.text@);
        }
        self.selection = None;
        self.cursor_index = start as i32;
        self.cursor_offset = 0;
        self.scroll_pending = true;
        self.change_cause = Some(ChangeCause::InputMethod);
        self.text_input_dirty = true;
        self.dirty = true;
    }

    /// Installs input-method composition text at the cursor. A non-empty
    /// preedit deletes any active selection first. The scroll recomputation
    /// waits for the next layout refresh, since the overlay reshapes the
    /// line.
    pub fn set_preedit_string(&mut self, text: &str, cursor_begin: i32, cursor_end: i32)
        requires
            old(self).wf(),
        ensures
            final(self).wf(),
            final(self).preedit_text@ == text.spec_bytes(),
            final(self).preedit_begin == cursor_begin,
            final(self).preedit_end == cursor_end,
            ({
                if text@.len() > 0 && old(self).selection is Some {
                    &&& final(self).text@ == spec_text_after_selection_delete(*old(self))
                    &&& final(self).selection is None
                    &&& final(self).cursor_stops@.len() == 0
                    &&& (old(self).selection matches Some(s) ==> (if s.start > 0 && s.start
                        == final(self).text@.len() {
                        final(self).cursor_index == s.start - 1 && final(self).cursor_offset == 1
                    } else {
                        final(self).cursor_index == s.start && final(self).cursor_offset == 0
                    }))
                } else {
                    &&& final(self).text@ == old(self).text@
                    &&& final(self).selection == old(self).selection
                    &&& final(self).cursor_stops == old(self).cursor_stops
                    &&& final(self).cursor_index == old(self).cursor_index
                    &&& final(self).cursor_offset == old(self).cursor_offset
                }
            }),
            final(self).scroll_pending,
            final(self).text_input_dirty,
            final(self).dirty,
            final(self).change_cause == old(self).change_cause,
            final(self).scroll_offset == old(self).scroll_offset,
            final(self).width == old(self).width,
            final(self).positions == old(self).positions,
            final(self).content_width == old(self).content_width,
            final(self).focused == old(self).focused,
            final(self).config == old(self).config,
            final(self).touch_state == old(self).touch_state,
    {
        if !text.is_empty() {
            if let Some(sel) = self.selection {
                self.delete_selected(sel);
            }
        }
        let bytes = text.as_bytes_vec();
        self.preedit_text = bytes;
        self.preedit_begin = cursor_begin;
        self.preedit_end = cursor_end;
        self.scroll_pending = true;
        self.text_input_dirty = true;
        self.dirty = true;
    }

    /// Sets the focus state. Gaining focus selects the whole content; losing
    /// it clears the selection.
    pub fn set_focused(&mut self, focused: bool)
        requires
            old(self).wf(),
        ensures
            final(self).wf(),
            *final(self) == (TextField {
                focused,
                text_input_dirty: true,
                dirty: true,
                ..(if focused && !old(self).focused {
                    spec_select(*old(self), 0, old(self).text@.len() as i32)
                } else if !focused && old(self).focused {
                    spec_clear_selection(*old(self))
                } else {
                    *old(self)
                })
            }),
            final(self).text@ == old(self).text@,
    {
        if focused && !self.focused {
            self.select_all();
        } else if !focused && self.focused {
            self.clear_selection();
        }
        self.focused = focused;
        self.text_input_dirty = true;
        self.dirty = true;
    }

    /// A left-arrow press: collapses a selection to its start, or steps the
    /// cursor one character left.
    fn key_left(&mut self)
        requires
            old(self).wf(),
        ensures
            final(self).wf(),
            match old(self).selection {
                Some(sel) => *final(self) == (TextField {
                    cursor_index: sel.start,
                    cursor_offset: 0,
                    selection: None,
                    text_input_dirty: true,
                    dirty: true,
                    ..*old(self)
                }),
                None => ({
                    let m = spec_move_cursor(
                        old(self).text@,
                        old(self).cursor_stops@,
                        old(self).cursor_index,
                        old(self).cursor_offset,
                        1,
                        -1i32,
                    );
                    *final(self) == (TextField {
                        text_input_dirty: true,
                        dirty: true,
                        ..spec_update_scroll(
                            TextField { cursor_index: m.0, cursor_offset: m.1, ..*old(self) },
                        )
                    })
                }),
            },
    {
        match self.selection {
            Some(sel) => {
                self.selection = None;
                self.cursor_index = sel.start;
                self.cursor_offset = 0;
            },
            None => {
                self.move_cursor(-1);
            },
        }
        self.text_input_dirty = true;
        self.dirty = true;
    }

    /// A right-arrow press: collapses a selection to its end — anchored to
    /// the last character when the selection reached the end of the buffer —
    /// or steps the cursor one character right.
    fn key_right(&mut self)
        requires
            old(self).wf(),
        ensures
            final(self).wf(),
            match old(self).selection {
                Some(sel) => *final(self) == (TextField {
                    cursor_index: if sel.end >= old(self).text@.len() {
                        (old(self).text@.len() - 1) as i32
                    } else {
                        sel.end
                    },
                    cursor_offset: if sel.end >= old(self).text@.len() {
                        1
                    } else {
                        0
                    },
                    selection: None,
                    text_input_dirty: true,
                    dirty: true,
                    ..*old(self)
                }),
                None => ({
                    let m = spec_move_cursor(
                        old(self).text@,
                        old(self).cursor_stops@,
                        old(self).cursor_index,
                        old(self).cursor_offset,
                        1,
                        1i32,
                    );
                    *final(self) == (TextField {
                        text_input_dirty: true,
                        dirty: true,
                        ..spec_update_scroll(
                            TextField { cursor_index: m.0, cursor_offset: m.1, ..*old(self) },
                        )
                    })
                }),
            },
    {
        match self.selection {
            Some(sel) => {
                self.selection = None;
                let text_len = self.text.len() as i32;
                if sel.end >= text_len {
                    self.cursor_index = text_len - 1;
                    self.cursor_offset = 1;
                } else {
                    self.cursor_index = sel.end;
                    self.cursor_offset = 0;
                }
            },
            None => {
                self.move_cursor(1);
            },
        }
        self.text_input_dirty = true;
        self.dirty = true;
    }

    /// A backspace press: deletes the selection, or one cursor step of text
    /// left of the cursor — a whole combining cluster when the stop snapshot
    /// says so.
    #[verifier::rlimit(100)]
    fn key_backspace(&mut self)
        requires
            old(self).wf(),
        ensures
            final(self).wf(),
            match old(self).selection {
                Some(sel) => spec_delete_selection_rel(*old(self), *final(self), sel),
                None => spec_backspace_rel(*old(self), *final(self)),
            },
    {
        match self.selection {
            Some(sel) => {
                self.delete_selected(sel);
            },
            None => {
                let end_index = self.cursor_byte_index();
                self.move_cursor(-1);
                let start_index = self.cursor_byte_index();
                proof {
                    let t = old(self).text@;
                    let stops = old(self).cursor_stops@;
                    let ci0 = old(self).cursor_index;
                    let co0 = old(self).cursor_offset;
                    let m1 = spec_move_once(t, stops, ci0, co0, -1i32);
                    assert(spec_move_cursor(t, stops, ci0, co0, 1int, -1i32) == spec_move_cursor(
                        t,
                        stops,
                        m1.0,
                        m1.1,
                        0int,
                        -1i32,
                    ));
                    assert(spec_move_cursor(t, stops, m1.0, m1.1, 0int, -1i32) == m1);
                    let b0 = spec_byte_index_of(t, ci0, co0);
                    if b0 > 0 {
                        if stops.len() == 0 {
                            crate::unicode::lemma_prev_boundary(t, b0);
                        } else {
                            reveal(stops_wf);
                            lemma_prev_stop(stops, b0);
                            assert(stops[0] == 0);
                            let p = spec_prev_stop(stops, b0);
                            assert(p >= 0);
                            let w = choose|i: int| 0 <= i < stops.len() && stops[i] == p;
                            assert(0 <= stops[w] <= t.len());
                            assert(is_char_boundary(t, stops[w] as int));
                        }
                    }
                    if start_index < end_index {
                        crate::unicode::lemma_remove_range_valid(
                            self.text@,
                            start_index as int,
                            end_index as int,
                        );
                    } else {
                        assert(start_index == end_index);
                        assert(self.text@.subrange(0, start_index as int) + self.text@.subrange(
                            end_index as int,
                            self.text@.len() as int,
                        ) =~= self.text@);
                    }
                }
                crate::unicode::remove_range(&mut self.text, start_index, end_index);
                self.cursor_stops = Vec::new();
                proof {
                    lemma_stops_wf_empty(self.text@);
                }
                self.scroll_pending = true;
            },
        }
        self.text_input_dirty = true;
        self.dirty = true;
    }

    /// A forward-delete press: deletes the selection, or the text from the
    /// cursor to the next cursor stop — a whole combining cluster when the
    /// stop snapshot says so; at the end of the buffer it does nothing.
    fn key_delete(&mut self)
        requires
            old(self).wf(),
        ensures
            final(self).wf(),
            match old(self).selection {
                Some(sel) => spec_delete_selection_rel(*old(self), *final(self), sel),
                None => {
                    if old(self).text@.len() == old(self).cursor_index + old(self).cursor_offset {
                        *final(self) == *old(self)
                    } else {
                        spec_delete_forward_rel(*old(self), *final(self))
                    }
                },
            },
    {
        match self.selection {
            Some(sel) => {
                self.delete_selected(sel);
                self.text_input_dirty = true;
                self.dirty = true;
            },
            None => {
                if self.text.len() as i64 == self.cursor_index as i64
                    + self.cursor_offset as i64 {
                    return ;
                }
                let start_index = self.cursor_byte_index();
                let end_index: usize;
                if start_index >= self.text.len() {
                    end_index = start_index;
                } else if self.cursor_stops.len() == 0 {
                    end_index = crate::unicode::next_boundary(&self.text, start_index);
                } else {
                    let n = next_stop_in(&self.cursor_stops, start_index as i64);
                    proof {
                        reveal(stops_wf);
                        lemma_next_stop(self.cursor_stops@, start_index as int);
                        assert(self.cursor_stops@.last() as int == self.text@.len());
                        assert(n > start_index);
                        let w = choose|i: int|
                            0 <= i < self.cursor_stops@.len() && self.cursor_stops@[i]
                                == spec_next_stop(self.cursor_stops@, start_index as int);
                        assert(0 <= self.cursor_stops@[w] <= self.text@.len());
                        assert(is_char_boundary(self.text@, self.cursor_stops@[w] as int));
                    }
                    end_index = n as usize;
                }
                proof {
                    if start_index < end_index {
                        crate::unicode::lemma_remove_range_valid(
                            self.text@,
                            start_index as int,
                            end_index as int,
                        );
                    } else {
                        assert(self.text@.subrange(0, start_index as int) + self.text@.subrange(
                            end_index as int,
                            self.text@.len() as int,
                        ) =~= self.text@);
                    }
                }
                crate::unicode::remove_range(&mut self.text, start_index, end_index);
                self.cursor_stops = Vec::new();
                proof {
                    lemma_stops_wf_empty(self.text@);
                }
                self.cursor_index = start_index as i32;
                self.cursor_offset = 0;
                self.scroll_pending = true;
                self.text_input_dirty = true;
                self.dirty = true;
            },
        }
    }

    /// A character key press: deletes any selection, then inserts the
    /// character's encoding at the cursor and steps past it.
    fn key_insert(&mut self, c: char)
        requires
            old(self).wf(),
            old(self).text@.len() + 4 <= MAX_TEXT_BYTES,
        ensures
            final(self).wf(),
            spec_insert_char_rel(*old(self), *final(self), c),
    {
        if let Some(sel) = self.selection {
            self.delete_selected(sel);
        } else {
            self.selection = None;
        }
        let enc = crate::unicode::encode_char(c);
        let index = self.cursor_byte_index();
        proof {
            match old(self).selection {
                Some(s) => {
                    let told = old(self).text@;
                    let t1 = self.text@;
                    if s.start < t1.len() {
                        assert(s.end < told.len());
                        assert(t1[s.start as int] == told[s.end as int]);
                        assert(!vstd::utf8::is_continuation_byte(told[s.end as int]));
                        assert(is_char_boundary(t1, s.start as int));
                    }
                    assert(index == s.start);
                },
                None => {},
            }
            crate::unicode::lemma_insert_valid(self.text@, index as int, enc@);
        }
        crate::unicode::insert_slice(&mut self.text, index, &enc);
        self.cursor_stops = Vec::new();
        proof {
            lemma_stops_wf_empty(self.text@);
        }
        self.cursor_index = (index + enc.len()) as i32;
        self.cursor_offset = 0;
        self.scroll_pending = true;
        self.text_input_dirty = true;
        self.dirty = true;
    }

    /// Handles a touch-down event: classifies the tap and records the touch
    /// baseline. The hit-tested `(index, offset)` pair names the byte the
    /// touch landed on.
    pub fn touch_down(&mut self, time: u32, position: Position, index: i32, offset: i32)
        requires
            old(self).wf(),
        ensures
            final(self).wf(),
            *final(self) == (TextField {
                touch_state: spec_touch_down(
                    old(self).touch_state,
                    old(self).config.input,
                    time,
                    Position {
                        x: crate::geometry::spec_clamp_coord(position.x),
                        y: crate::geometry::spec_clamp_coord(position.y),
                    },
                    spec_byte_index_of(old(self).text@, index, offset) as i32,
                    old(self).focused,
                ),
                change_cause: Some(ChangeCause::Other),
                ..*old(self)
            }),
    {
        let pos = Position::new(position.x, position.y);
        let byte_index = self.byte_index_of(index, offset);
        let focused = self.focused;
        let input = self.config.input;
        self.touch_state.down(&input, time, pos, byte_index as i32, focused);
        self.change_cause = Some(ChangeCause::Other);
    }

    /// Handles a touch-motion event: a drag scrolls the text, a
    /// selection-caret drag moves that caret to the hit-tested byte, and a
    /// caret dragged past the opposite one swaps roles with it, so further
    /// motion keeps moving the correct edge.
    pub fn touch_motion(&mut self, position: Position, index: i32, offset: i32)
        requires
            old(self).wf(),
        ensures
            final(self).wf(),
            *final(self) == spec_field_touch_motion(*old(self), position, index, offset),
            final(self).text@ == old(self).text@,
    {
        let pos = Position::new(position.x, position.y);
        let input = self.config.input;
        let selection = self.selection;
        let delta = self.touch_state.motion(&input, pos, selection);
        self.change_cause = Some(ChangeCause::Other);
        match self.touch_state.action {
            TouchAction::Drag => {
                self.scroll_offset = self.scroll_offset + delta.x;
                self.clamp_scroll_offset();
                self.dirty = true;
            },
            TouchAction::DragSelectionStart | TouchAction::DragSelectionEnd => {
                if let Some(sel) = self.selection {
                    let byte_index = self.byte_index_of(index, offset) as i32;
                    let modifies_start = matches!(
                        self.touch_state.action,
                        TouchAction::DragSelectionStart
                    );
                    let mut new_sel = sel;
                    if modifies_start && byte_index != sel.end {
                        new_sel.start = byte_index;
                    } else if !modifies_start && byte_index != sel.start {
                        new_sel.end = byte_index;
                    }
                    if new_sel.start > new_sel.end {
                        let tmp = new_sel.start;
                        new_sel.start = new_sel.end;
                        new_sel.end = tmp;
                        self.touch_state.action = if modifies_start {
                            TouchAction::DragSelectionEnd
                        } else {
                            TouchAction::DragSelectionStart
                        };
                    }
                    self.selection = Some(new_sel);
                    self.update_scroll_offset();
                    self.text_input_dirty = true;
                    self.dirty = true;
                }
            },
            _ => {},
        }
    }

    /// Handles a touch-release event. Drags and the focusing touch act
    /// during motion or on the down and do nothing here; a tap places the
    /// cursor at the hit-tested position and clears the selection, a
    /// double-tap selects the word around the tapped byte, and a triple-tap
    /// selects everything. Every completed tap leaves the field focused.
    pub fn touch_up(&mut self, index: i32, offset: i32)
        requires
            old(self).wf(),
        ensures
            final(self).wf(),
            ({
                let base = TextField { change_cause: Some(ChangeCause::Other), ..*old(self) };
                match old(self).touch_state.action {
                    TouchAction::Drag
                    | TouchAction::DragSelectionStart
                    | TouchAction::DragSelectionEnd
                    | TouchAction::Focus => *final(self) == base,
                    TouchAction::Tap => *final(self) == spec_focus_after_touch(
                        spec_clear_selection(
                            TextField { cursor_index: index, cursor_offset: offset, ..base },
                        ),
                    ),
                    TouchAction::DoubleTap => ({
                        let b = spec_byte_index_of(old(self).text@, index, offset);
                        exists|ws: int, we: int|
                            spec_word_start_at(old(self).text@, ws, b) && spec_word_end_at(
                                old(self).text@,
                                we,
                                b,
                            ) && *final(self) == spec_focus_after_touch(
                                spec_select(base, ws as i32, we as i32),
                            )
                    }),
                    TouchAction::TripleTap => *final(self) == spec_focus_after_touch(
                        spec_select(base, 0, old(self).text@.len() as i32),
                    ),
                }
            }),
    {
        self.change_cause = Some(ChangeCause::Other);
        match self.touch_state.action {
            TouchAction::Drag
            | TouchAction::DragSelectionStart
            | TouchAction::DragSelectionEnd
            | TouchAction::Focus => {
                return ;
            },
            TouchAction::Tap => {
                self.cursor_index = index;
                self.cursor_offset = offset;
                self.clear_selection();
            },
            TouchAction::DoubleTap => {
                let byte_index = self.byte_index_of(index, offset);
                let word_start = word_start_from(&self.text, byte_index);
                let word_end = word_end_from(&self.text, byte_index);
                let ghost ws = word_start as int;
                let ghost we = word_end as int;
                self.select(word_start as i32, word_end as i32);
            },
            TouchAction::TripleTap => {
                self.select_all();
            },
        }
        self.set_focused(true);
    }

    /// Handles a key press. Keys with the logo or alt modifier held are
    /// ignored. Returns the work the surrounding shell must do: submitting
    /// the text, publishing a clipboard selection, or fetching a paste.
    #[verifier::rlimit(100)]
    pub fn press_key(&mut self, key: Key, mods: Modifiers) -> (effect: Option<KeyEffect>)
        requires
            old(self).wf(),
            key matches Key::Char(c) ==> old(self).text@.len() + 4 <= MAX_TEXT_BYTES,
        ensures
            final(self).wf(),
            ({
                let base = TextField { change_cause: Some(ChangeCause::Other), ..*old(self) };
                let pre = *old(self);
                let ignored = mods.logo || mods.alt;
                let plain = !mods.shift && !mods.ctrl;
                let copy_case = key == Key::XF86Copy || ((key == Key::Char('c') || key
                    == Key::Char('C')) && mods.shift && mods.ctrl);
                let paste_case = key == Key::XF86Paste || ((key == Key::Char('v') || key
                    == Key::Char('V')) && mods.shift && mods.ctrl);
                &&& (ignored ==> *final(self) == *old(self) && effect is None)
                &&& (!ignored && key == Key::Return && plain ==> *final(self) == (TextField {
                    focused: false,
                    text_input_dirty: true,
                    dirty: true,
                    ..(if pre.focused {
                        spec_clear_selection(base)
                    } else {
                        base
                    })
                }) && (effect matches Some(KeyEffect::Submit(t)) && t@ == pre.text@))
                &&& (!ignored && key == Key::Left && plain ==> effect is None && (match pre.selection {
                    Some(sel) => *final(self) == (TextField {
                        cursor_index: sel.start,
                        cursor_offset: 0,
                        selection: None,
                        text_input_dirty: true,
                        dirty: true,
                        ..base
                    }),
                    None => {
                        let m = spec_move_cursor(pre.text@, pre.cursor_stops@, pre.cursor_index, pre.cursor_offset, 1, -1i32);
                        *final(self) == (TextField {
                            text_input_dirty: true,
                            dirty: true,
                            ..spec_update_scroll(
                                TextField { cursor_index: m.0, cursor_offset: m.1, ..base },
                            )
                        })
                    },
                }))
                &&& (!ignored && key == Key::Right && plain ==> effect is None && (match pre.selection {
                    Some(sel) => *final(self) == (TextField {
                        cursor_index: if sel.end >= pre.text@.len() {
                            (pre.text@.len() - 1) as i32
                        } else {
                            sel.end
                        },
                        cursor_offset: if sel.end >= pre.text@.len() {
                            1
                        } else {
                            0
                        },
                        selection: None,
                        text_input_dirty: true,
                        dirty: true,
                        ..base
                    }),
                    None => {
                        let m = spec_move_cursor(pre.text@, pre.cursor_stops@, pre.cursor_index, pre.cursor_offset, 1, 1i32);
                        *final(self) == (TextField {
                            text_input_dirty: true,
                            dirty: true,
                            ..spec_update_scroll(
                                TextField { cursor_index: m.0, cursor_offset: m.1, ..base },
                            )
                        })
                    },
                }))
                &&& (!ignored && key == Key::BackSpace && plain ==> effect is None && (
                match pre.selection {
                    Some(sel) => spec_delete_selection_rel(base, *final(self), sel),
                    None => spec_backspace_rel(base, *final(self)),
                }))
                &&& (!ignored && key == Key::Delete && plain ==> effect is None && (
                match pre.selection {
                    Some(sel) => spec_delete_selection_rel(base, *final(self), sel),
                    None => {
                        if pre.text@.len() == pre.cursor_index + pre.cursor_offset {
                            *final(self) == base
                        } else {
                            spec_delete_forward_rel(base, *final(self))
                        }
                    },
                }))
                &&& (!ignored && copy_case ==> (match pre.selection {
                    Some(sel) => *final(self) == base && (effect matches Some(
                        KeyEffect::CopyText(t),
                    ) && t@ == pre.text@.subrange(sel.start as int, sel.end as int)),
                    None => *final(self) == base && effect is None,
                }))
                &&& (!ignored && paste_case ==> *final(self) == base && effect matches Some(
                    KeyEffect::RequestPaste,
                ))
                &&& (key matches Key::Char(c) ==> ((!ignored && !mods.ctrl && !copy_case
                    && !paste_case) ==> (effect is None && spec_insert_char_rel(
                    base,
                    *final(self),
                    c,
                ))))
                &&& ({
                    let handled = (plain && (key == Key::Return || key == Key::Left || key
                        == Key::Right || key == Key::BackSpace || key == Key::Delete))
                        || copy_case || paste_case || (!mods.ctrl && (key matches Key::Char(_)));
                    (!ignored && !handled) ==> *final(self) == base && effect is None
                })
            }),
    {
        if mods.logo || mods.alt {
            return None;
        }
        self.change_cause = Some(ChangeCause::Other);
        match (key, mods.shift, mods.ctrl) {
            (Key::Return, false, false) => {
                let text = self.text();
                self.set_focused(false);
                Some(KeyEffect::Submit(text))
            },
            (Key::Left, false, false) => {
                self.key_left();
                None
            },
            (Key::Right, false, false) => {
                self.key_right();
                None
            },
            (Key::BackSpace, false, false) => {
                self.key_backspace();
                None
            },
            (Key::Delete, false, false) => {
                self.key_delete();
                None
            },
            (Key::XF86Copy, _, _) | (Key::Char('c') | Key::Char('C'), true, true) => {
                match self.selection_text() {
                    Some(text) => Some(KeyEffect::CopyText(text)),
                    None => None,
                }
            },
            (Key::XF86Paste, _, _) | (Key::Char('v') | Key::Char('V'), true, true) => {
                Some(KeyEffect::RequestPaste)
            },
            (Key::Char(c), _, false) => {
                self.key_insert(c);
                None
            },
            _ => None,
        }
    }

    /// The surrounding-text window for the input method: at most
    /// [`MAX_SURROUNDING_BYTES`] bytes around the cursor — up to half the
    /// budget after the cursor, the rest before it, both truncated to
    /// character boundaries — together with the cursor and selection
    /// boundaries rebased onto the window's start.
    pub fn surrounding_text(&self) -> (r: (Vec<u8>, i32, i32))
        requires
            self.wf(),
        ensures
            ({
                let t = self.text@;
                let cb = self.spec_cursor_byte();
                let end = spec_surrounding_end(t, cb);
                let start = spec_surrounding_start(t, cb, end);
                &&& r.0@ == t.subrange(start, end)
                &&& r.0@.len() <= MAX_SURROUNDING_BYTES
                &&& start <= cb <= end
                &&& is_char_boundary(t, start)
                &&& is_char_boundary(t, end)
                &&& match self.selection {
                    Some(s) => r.1 == s.start - start && r.2 == s.end - start,
                    None => r.1 == cb - start && r.2 == cb - start,
                }
            }),
    {
        let cursor_index = self.cursor_byte_index();
        let half: usize = MAX_SURROUNDING_BYTES / 2;
        let end: usize = if cursor_index + half >= self.text.len() {
            self.text.len()
        } else {
            crate::unicode::snap_back(&self.text, cursor_index + half)
        };
        proof {
            if cursor_index + half < self.text@.len() && !is_char_boundary(
                self.text@,
                cursor_index + half,
            ) {
                crate::unicode::lemma_prev_boundary(self.text@, cursor_index + half);
            }
        }
        let remaining: usize = MAX_SURROUNDING_BYTES - (end - cursor_index);
        let raw: usize = if remaining > cursor_index {
            0
        } else {
            cursor_index - remaining
        };
        let start = snap_forward(&self.text, raw);
        proof {
            crate::unicode::lemma_snap_forward(self.text@, raw as int);
            assert(start <= cursor_index) by {
                assert(is_char_boundary(self.text@, cursor_index as int));
            }
        }
        let mut window: Vec<u8> = Vec::new();
        let mut i: usize = start;
        while i < end
            invariant
                self.wf(),
                start <= i <= end <= self.text@.len(),
                window@ == self.text@.subrange(start as int, i as int),
            decreases end - i,
        {
            window.push(self.text[i]);
            i += 1;
            proof {
                assert(window@ =~= self.text@.subrange(start as int, i as int));
            }
        }
        let (cursor_start, cursor_end) = match self.selection {
            Some(s) => (s.start - start as i32, s.end - start as i32),
            None => (cursor_index as i32 - start as i32, cursor_index as i32 - start as i32),
        };
        (window, cursor_start, cursor_end)
    }

    /// Replaces the configuration snapshot.
    pub fn set_config(&mut self, config: Config)
        requires
            old(self).wf(),
        ensures
            final(self).wf(),
            *final(self) == (TextField { config, dirty: true, ..*old(self) }),
    {
        self.config = config;
        self.dirty = true;
    }
}

} // verus!

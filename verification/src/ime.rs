//! Input-method synchronization.
//!
//! The IME transport is edge-triggered: repeatedly enabling or disabling it
//! disrupts some compositors, so [`TextInput`] tracks the enabled state and
//! reports whether a transition must actually be sent. [`sync_ime`] derives
//! the full update the shell must push after a field change.

use vstd::prelude::*;
use vstd::utf8::is_char_boundary;

use crate::text_field::ChangeCause;
use crate::text_field::MAX_SURROUNDING_BYTES;
use crate::text_field::TextField;
use crate::text_field::spec_surrounding_end;
use crate::text_field::spec_surrounding_start;

verus! {

/// How the input method should treat the field's content, as the text-input
/// protocol describes it.
#[derive(Copy, Clone, Debug, PartialEq, Eq, Structural)]
pub enum ContentHint {
    NoHint,
    Completion,
    Spellcheck,
    AutoCapitalization,
    Lowercase,
    Uppercase,
    Titlecase,
    HiddenText,
    SensitiveData,
    Latin,
    Multiline,
}

/// What kind of value the field holds, as the text-input protocol describes
/// it.
#[derive(Copy, Clone, Debug, PartialEq, Eq, Structural)]
pub enum ContentPurpose {
    Normal,
    Alpha,
    Digits,
    Number,
    Phone,
    Url,
    Email,
    Name,
    Password,
    Pin,
    Date,
    Time,
    Datetime,
    Terminal,
}

/// IME transport handle with enabled-state tracking, so enable and disable
/// calls reach the compositor only on actual transitions.
pub struct TextInput {
    /// Whether the transport is currently enabled.
    pub enabled: bool,
}

impl TextInput {
    /// A transport that starts out disabled.
    pub fn new() -> (t: Self)
        ensures
            !t.enabled,
    {
        TextInput { enabled: false }
    }

    /// Marks the transport enabled. Returns whether the underlying enable
    /// call must be sent: only on the disabled-to-enabled edge.
    pub fn enable(&mut self) -> (emit: bool)
        ensures
            final(self).enabled,
            emit == !old(self).enabled,
    {
        let emit = !self.enabled;
        self.enabled = true;
        emit
    }

    /// Marks the transport disabled. Returns whether the underlying disable
    /// call (followed by a commit) must be sent: only on the
    /// enabled-to-disabled edge.
    pub fn disable(&mut self) -> (emit: bool)
        ensures
            !final(self).enabled,
            emit == old(self).enabled,
    {
        let emit = self.enabled;
        self.enabled = false;
        emit
    }
}

/// The update the shell must push to the IME transport.
pub enum ImeSync {
    /// The field is unfocused: disable the transport, sending the disable
    /// and a commit only when `emit` is set.
    Disable { emit: bool },
    /// The field is focused: enable the transport first when `enable_first`
    /// is set, then push, in one committed batch, the surrounding text with
    /// its rebased cursor bounds, the change cause, the content type, and
    /// the cursor rectangle. `cursor_x` is the cursor's viewport x
    /// coordinate; the shell adds the field's window origin and supplies the
    /// rectangle's vertical extent from its layout, then commits.
    Push {
        enable_first: bool,
        surrounding: Vec<u8>,
        cursor_start: i32,
        cursor_end: i32,
        cause: ChangeCause,
        hint: ContentHint,
        purpose: ContentPurpose,
        cursor_x: i64,
    },
}

/// Derives the IME update for the field's current state: an unfocused field
/// disables the transport and keeps its pending change cause; a focused
/// field enables it and pushes the surrounding-text window together with the
/// pending cause — consumed, defaulting to [`ChangeCause::InputMethod`] —
/// the password content type, and the cursor's viewport x coordinate.
pub fn sync_ime(field: &mut TextField, text_input: &mut TextInput) -> (r: ImeSync)
    requires
        old(field).wf(),
    ensures
        final(field).wf(),
        !old(field).focused ==> *final(field) == *old(field) && !final(text_input).enabled && (r
            matches ImeSync::Disable { emit } && emit == old(text_input).enabled),
        old(field).focused ==> *final(field) == (TextField {
            change_cause: None,
            ..*old(field)
        }) && final(text_input).enabled && (r matches ImeSync::Push {
            enable_first,
            surrounding,
            cursor_start,
            cursor_end,
            cause,
            hint,
            purpose,
            cursor_x,
        } && enable_first == !old(text_input).enabled && cause == (match old(
            field,
        ).change_cause {
            Some(c) => c,
            None => ChangeCause::InputMethod,
        }) && hint == ContentHint::SensitiveData && purpose == ContentPurpose::Password
            && cursor_x == old(field).spec_position_x(old(field).spec_cursor_byte()) + old(
            field,
        ).scroll_offset && ({
            let t = old(field).text@;
            let cb = old(field).spec_cursor_byte();
            let end = spec_surrounding_end(t, cb);
            let start = spec_surrounding_start(t, cb, end);
            &&& surrounding@ == t.subrange(start, end)
            &&& surrounding@.len() <= MAX_SURROUNDING_BYTES
            &&& is_char_boundary(t, start)
            &&& is_char_boundary(t, end)
            &&& match old(field).selection {
                Some(s) => cursor_start == s.start - start && cursor_end == s.end - start,
                None => cursor_start == cb - start && cursor_end == cb - start,
            }
        })),
{
    if !field.focused() {
        let emit = text_input.disable();
        return ImeSync::Disable { emit };
    }
    let enable_first = text_input.enable();
    let (surrounding, cursor_start, cursor_end) = field.surrounding_text();
    let byte = field.cursor_byte_index();
    let cursor_x = field.position_x(byte) + field.scroll_offset();
    let cause = field.take_change_cause();
    ImeSync::Push {
        enable_first,
        surrounding,
        cursor_start,
        cursor_end,
        cause,
        hint: ContentHint::SensitiveData,
        purpose: ContentPurpose::Password,
        cursor_x,
    }
}

} // verus!

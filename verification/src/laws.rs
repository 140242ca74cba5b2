//! Properties that relate several operations of the text field.
//!
//! Each law is stated over the specification functions that the operations'
//! own contracts use, so it speaks about every reachable state.

use vstd::prelude::*;

use crate::text_field::Selection;
use crate::text_field::TextField;
use crate::text_field::spec_clear_selection;
use crate::text_field::spec_cursor_after_selection_delete;
use crate::text_field::spec_min_scroll;
use crate::text_field::spec_scrolled_to;
use crate::text_field::spec_select;
use crate::text_field::spec_text_after_selection_delete;

verus! {

/// Selecting any range — in particular the whole buffer — and immediately
/// clearing the selection leaves the buffer content exactly as it was.
pub proof fn lemma_select_then_clear_preserves_content(f: TextField, start: i32, end: i32)
    ensures
        spec_clear_selection(spec_select(f, start, end)).text == f.text,
{
}

/// Deleting the active selection and then inserting the deleted bytes at the
/// cursor — which the deletion leaves at the selection start — restores the
/// original buffer content.
pub proof fn lemma_delete_selection_then_paste_restores(f: TextField, sel: Selection)
    requires
        f.wf(),
        f.selection == Some(sel),
    ensures
        ({
            let t1 = spec_text_after_selection_delete(f);
            let cb = spec_cursor_after_selection_delete(f);
            let ins = f.text@.subrange(sel.start as int, sel.end as int);
            t1.subrange(0, cb) + ins + t1.subrange(cb, t1.len() as int) == f.text@
        }),
{
    let t = f.text@;
    let t1 = spec_text_after_selection_delete(f);
    let cb = spec_cursor_after_selection_delete(f);
    let ins = t.subrange(sel.start as int, sel.end as int);
    assert(t1 == t.subrange(0, sel.start as int) + t.subrange(sel.end as int, t.len() as int));
    assert(t1.subrange(0, cb) =~= t.subrange(0, sel.start as int));
    assert(t1.subrange(cb, t1.len() as int) =~= t.subrange(sel.end as int, t.len() as int));
    assert(t1.subrange(0, cb) + ins + t1.subrange(cb, t1.len() as int) =~= t);
}

/// Deleting the active selection and then inserting any bytes of the same
/// length at the cursor keeps the buffer length, restores the content before
/// and after the replaced range, and puts the new bytes exactly where the
/// selection was.
pub proof fn lemma_delete_then_same_length_insert_shape(f: TextField, sel: Selection, ins: Seq<u8>)
    requires
        f.wf(),
        f.selection == Some(sel),
        ins.len() == sel.end - sel.start,
    ensures
        ({
            let t = f.text@;
            let t1 = spec_text_after_selection_delete(f);
            let cb = spec_cursor_after_selection_delete(f);
            let t2 = t1.subrange(0, cb) + ins + t1.subrange(cb, t1.len() as int);
            &&& t2.len() == t.len()
            &&& t2.subrange(0, sel.start as int) == t.subrange(0, sel.start as int)
            &&& t2.subrange(sel.end as int, t2.len() as int) == t.subrange(
                sel.end as int,
                t.len() as int,
            )
            &&& t2.subrange(sel.start as int, sel.end as int) == ins
        }),
{
    let t = f.text@;
    let t1 = spec_text_after_selection_delete(f);
    let cb = spec_cursor_after_selection_delete(f);
    let t2 = t1.subrange(0, cb) + ins + t1.subrange(cb, t1.len() as int);
    assert(t1 == t.subrange(0, sel.start as int) + t.subrange(sel.end as int, t.len() as int));
    assert(t1.subrange(0, cb) =~= t.subrange(0, sel.start as int));
    assert(t1.subrange(cb, t1.len() as int) =~= t.subrange(sel.end as int, t.len() as int));
    assert(t2.subrange(0, sel.start as int) =~= t.subrange(0, sel.start as int));
    assert(t2.subrange(sel.end as int, t2.len() as int) =~= t.subrange(
        sel.end as int,
        t.len() as int,
    ));
    assert(t2.subrange(sel.start as int, sel.end as int) =~= ins);
}

/// A single-position scroll adjustment keeps the offset within
/// `[-max(content_width - width, 0), 0]`, and a position that lies within
/// content at least as wide as the viewport ends up visible: its viewport
/// coordinate lands in `[0, width]`.
pub proof fn lemma_scroll_adjustment_bounds(f: TextField, x: int)
    requires
        f.wf(),
    ensures
        ({
            let g = spec_scrolled_to(f, x);
            &&& spec_min_scroll(g.content_width, g.width) <= g.scroll_offset <= 0
            &&& ((0 <= x <= f.content_width && f.content_width >= f.width) ==> 0 <= x
                + g.scroll_offset <= f.width)
        }),
{
}

} // verus!

//! UTF-8 byte-buffer primitives.
//!
//! The text field stores its content as a vector of UTF-8 bytes. This module
//! provides the boundary arithmetic the editing operations are built on:
//! boundary tests, snapping an arbitrary byte offset to a character boundary,
//! stepping between adjacent boundaries, splicing byte ranges, and
//! encoding/decoding single scalars.

use vstd::prelude::*;
use vstd::utf8::*;

verus! {

broadcast use vstd::utf8::is_char_boundary_iff_not_is_continuation_byte,
    vstd::utf8::is_char_boundary_start_end_of_seq, vstd::utf8::valid_utf8_split,
    vstd::utf8::valid_utf8_concat;

/// True when `i` is a character boundary of `text`, with the same meaning as
/// `str::is_char_boundary`: the start, the end, or the first byte of a
/// character's encoding. Indices past the end are not boundaries.
pub fn is_boundary(text: &Vec<u8>, i: usize) -> (r: bool)
    requires
        valid_utf8(text@),
    ensures
        r == is_char_boundary(text@, i as int),
{
    if i >= text.len() {
        i == text.len()
    } else {
        let b = text[i];
        proof {
            assert(is_char_boundary(text@, i as int) <==> !is_continuation_byte(text@[i as int]));
        }
        !(0x80 <= b && b <= 0xbf)
    }
}

/// The smallest character boundary at or after `i`.
pub open spec fn spec_snap_forward(s: Seq<u8>, i: int) -> int
    recommends
        valid_utf8(s),
        0 <= i <= s.len(),
    decreases s.len() - i,
    when 0 <= i <= s.len()
{
    if i >= s.len() {
        s.len() as int
    } else if is_char_boundary(s, i) {
        i
    } else {
        spec_snap_forward(s, i + 1)
    }
}

/// The boundary that [`spec_snap_forward`] finds lies in `[i, s.len()]`, is a
/// boundary, and no boundary lies strictly between `i` and it.
pub proof fn lemma_snap_forward(s: Seq<u8>, i: int)
    requires
        valid_utf8(s),
        0 <= i <= s.len(),
    ensures
        i <= spec_snap_forward(s, i) <= s.len(),
        is_char_boundary(s, spec_snap_forward(s, i)),
        forall|j: int| i <= j < spec_snap_forward(s, i) ==> !is_char_boundary(s, j),
    decreases s.len() - i,
{
    if i >= s.len() {
    } else if is_char_boundary(s, i) {
    } else {
        lemma_snap_forward(s, i + 1);
    }
}

/// Snaps a byte offset to the nearest character boundary at or after it.
pub fn snap_forward(text: &Vec<u8>, i: usize) -> (r: usize)
    requires
        valid_utf8(text@),
        i <= text.len(),
    ensures
        r == spec_snap_forward(text@, i as int),
        i <= r <= text.len(),
        is_char_boundary(text@, r as int),
{
    proof {
        lemma_snap_forward(text@, i as int);
    }
    let mut j = i;
    while j < text.len() && 0x80 <= text[j] && text[j] <= 0xbf
        invariant
            valid_utf8(text@),
            i <= j <= text.len(),
            forall|k: int| i <= k < j ==> !is_char_boundary(text@, k),
        decreases text.len() - j,
    {
        proof {
            assert(is_continuation_byte(text@[j as int]));
            assert(!is_char_boundary(text@, j as int));
        }
        j += 1;
    }
    proof {
        if j < text.len() {
            assert(!is_continuation_byte(text@[j as int]));
        }
        assert(is_char_boundary(text@, j as int));
        let r = spec_snap_forward(text@, i as int);
        assert(i <= r <= j || j < r) by {
            lemma_snap_forward(text@, i as int);
        }
        if r < j {
            assert(!is_char_boundary(text@, r));
        }
        if j < r {
            lemma_snap_forward(text@, i as int);
            assert(!is_char_boundary(text@, j as int));
        }
        assert(j as int == r);
    }
    j
}

/// The largest character boundary strictly before `i`, or `0` when `i <= 0`.
pub open spec fn spec_prev_boundary(s: Seq<u8>, i: int) -> int
    recommends
        valid_utf8(s),
        i <= s.len(),
    decreases i,
    when i <= s.len()
{
    if i <= 0 {
        0
    } else if is_char_boundary(s, i - 1) {
        i - 1
    } else {
        spec_prev_boundary(s, i - 1)
    }
}

/// The boundary that [`spec_prev_boundary`] finds lies in `[0, i)`, is a
/// boundary, and no boundary lies strictly between it and `i`.
pub proof fn lemma_prev_boundary(s: Seq<u8>, i: int)
    requires
        valid_utf8(s),
        0 < i <= s.len(),
    ensures
        0 <= spec_prev_boundary(s, i) < i,
        is_char_boundary(s, spec_prev_boundary(s, i)),
        forall|j: int| spec_prev_boundary(s, i) < j < i ==> !is_char_boundary(s, j),
    decreases i,
{
    if is_char_boundary(s, i - 1) {
    } else if i == 1 {
        assert(is_char_boundary(s, 0));
    } else {
        lemma_prev_boundary(s, i - 1);
    }
}

/// The boundary of the character before position `i`: one grapheme-unaware
/// step to the left.
pub fn prev_boundary(text: &Vec<u8>, i: usize) -> (r: usize)
    requires
        valid_utf8(text@),
        0 < i <= text.len(),
    ensures
        r == spec_prev_boundary(text@, i as int),
        r < i,
        is_char_boundary(text@, r as int),
{
    proof {
        lemma_prev_boundary(text@, i as int);
    }
    let mut j = i - 1;
    while j > 0 && 0x80 <= text[j] && text[j] <= 0xbf
        invariant
            valid_utf8(text@),
            0 <= j < i <= text.len(),
            forall|k: int| j < k < i ==> !is_char_boundary(text@, k),
        decreases j,
    {
        proof {
            assert(is_continuation_byte(text@[j as int]));
            assert(!is_char_boundary(text@, j as int));
        }
        j -= 1;
    }
    proof {
        if j > 0 {
            assert(!is_continuation_byte(text@[j as int]));
        }
        assert(is_char_boundary(text@, j as int));
        let p = spec_prev_boundary(text@, i as int);
        lemma_prev_boundary(text@, i as int);
        if p < j {
            assert(!is_char_boundary(text@, j as int));
        }
        if j < p {
            assert(!is_char_boundary(text@, p));
        }
        assert(j as int == p);
    }
    j
}

/// The largest character boundary at or before `i`.
pub open spec fn spec_snap_back(s: Seq<u8>, i: int) -> int {
    if is_char_boundary(s, i) {
        i
    } else {
        spec_prev_boundary(s, i)
    }
}

/// Snaps a byte offset to the nearest character boundary at or before it.
pub fn snap_back(text: &Vec<u8>, i: usize) -> (r: usize)
    requires
        valid_utf8(text@),
        i <= text.len(),
    ensures
        r == spec_snap_back(text@, i as int),
        r <= i,
        is_char_boundary(text@, r as int),
{
    if is_boundary(text, i) {
        i
    } else {
        proof {
            lemma_prev_boundary(text@, i as int);
        }
        prev_boundary(text, i)
    }
}

/// The boundary of the character after the boundary `i`: one grapheme-unaware
/// step to the right.
pub fn next_boundary(text: &Vec<u8>, i: usize) -> (r: usize)
    requires
        valid_utf8(text@),
        i < text.len(),
    ensures
        r == spec_snap_forward(text@, i + 1),
        i < r <= text.len(),
        is_char_boundary(text@, r as int),
{
    snap_forward(text, i + 1)
}

/// Removes the bytes in `[start, end)` from `v`.
pub fn remove_range(v: &mut Vec<u8>, start: usize, end: usize)
    requires
        start <= end <= old(v).len(),
    ensures
        final(v)@ == old(v)@.subrange(0, start as int) + old(v)@.subrange(
            end as int,
            old(v)@.len() as int,
        ),
{
    let mut tail = v.split_off(end);
    v.truncate(start);
    v.append(&mut tail);
}

/// Removing a range that starts and ends on character boundaries keeps the
/// buffer valid UTF-8.
pub proof fn lemma_remove_range_valid(s: Seq<u8>, start: int, end: int)
    requires
        valid_utf8(s),
        0 <= start <= end <= s.len(),
        is_char_boundary(s, start),
        is_char_boundary(s, end),
    ensures
        valid_utf8(s.subrange(0, start) + s.subrange(end, s.len() as int)),
{
    let tail = s.subrange(end, s.len() as int);
    assert(valid_utf8(s.subrange(0, start)));
    assert(valid_utf8(tail));
}

/// Inserts the bytes of `s` into `v` at offset `at`.
pub fn insert_slice(v: &mut Vec<u8>, at: usize, s: &Vec<u8>)
    requires
        at <= old(v).len(),
        old(v).len() + s.len() <= usize::MAX,
    ensures
        final(v)@ == old(v)@.subrange(0, at as int) + s@ + old(v)@.subrange(
            at as int,
            old(v)@.len() as int,
        ),
{
    let ghost orig = v@;
    let mut tail = v.split_off(at);
    let mut k: usize = 0;
    while k < s.len()
        invariant
            k <= s.len(),
            v@ == orig.subrange(0, at as int) + s@.subrange(0, k as int),
            tail@ == orig.subrange(at as int, orig.len() as int),
        decreases s.len() - k,
    {
        v.push(s[k]);
        k += 1;
        proof {
            assert(orig.subrange(0, at as int) + s@.subrange(0, k - 1) + seq![s@[k - 1]]
                =~= orig.subrange(0, at as int) + s@.subrange(0, k as int));
        }
    }
    v.append(&mut tail);
    proof {
        assert(s@.subrange(0, s@.len() as int) =~= s@);
    }
}

/// Whether a character counts as part of a word for double-tap selection.
///
/// Names the result of `char::is_alphanumeric`, which depends on the Unicode
/// category tables and on nothing but the character itself.
pub uninterp spec fn alphanumeric(c: char) -> bool;

/// Relies on char::is_alphanumeric: whether the character is in the Unicode
/// categories of letters or numbers; a function of the character alone.
#[verifier::external_body]
pub fn char_is_alphanumeric(c: char) -> (r: bool)
    ensures
        r == alphanumeric(c),
{
    c.is_alphanumeric()
}

/// Relies on char::from_u32: `Some` exactly for Unicode scalar values
/// (codepoints outside the surrogate range and at most `0x10FFFF`), and the
/// resulting character has the given value.
pub assume_specification[ char::from_u32 ](v: u32) -> (r: Option<char>)
    ensures
        r is Some <==> is_scalar(v),
        r matches Some(c) ==> c as u32 == v,
;

/// The scalar value of the character whose encoding starts at boundary `i`.
pub open spec fn spec_char_at(s: Seq<u8>, i: int) -> u32
    recommends
        valid_utf8(s),
        0 <= i < s.len(),
        is_char_boundary(s, i),
{
    decode_first_scalar(s.subrange(i, s.len() as int))
}

/// Decodes the character whose encoding starts at boundary `i`.
pub fn decode_char_at(text: &Vec<u8>, i: usize) -> (c: char)
    requires
        valid_utf8(text@),
        i < text.len(),
        is_char_boundary(text@, i as int),
    ensures
        c as u32 == spec_char_at(text@, i as int),
{
    let ghost suffix = text@.subrange(i as int, text@.len() as int);
    proof {
        assert(valid_utf8(suffix));
        assert(valid_first_scalar(suffix));
    }
    let b0 = text[i];
    proof {
        assert(suffix[0] == text@[i as int]);
    }
    let cp: u32;
    if b0 <= 0x7f {
        cp = b0 as u32;
        proof {
            assert(cp == ((b0 & 0x7f) as u32)) by (bit_vector)
                requires
                    b0 <= 0x7f,
                    cp == b0 as u32,
            ;
        }
    } else if b0 <= 0xdf {
        proof {
            assert(suffix.len() >= 2);
            assert(suffix[1] == text@[i + 1]);
        }
        let b1 = text[i + 1];
        cp = (((b0 & 0x1f) as u32) << 6u32) | ((b1 & 0x3f) as u32);
        proof {
            assert(cp <= 0x7ff) by (bit_vector)
                requires
                    cp == (((b0 & 0x1f) as u32) << 6u32) | ((b1 & 0x3f) as u32),
            ;
        }
    } else if b0 <= 0xef {
        proof {
            assert(suffix.len() >= 3);
            assert(suffix[1] == text@[i + 1]);
            assert(suffix[2] == text@[i + 2]);
        }
        let b1 = text[i + 1];
        let b2 = text[i + 2];
        cp = (((b0 & 0x0f) as u32) << 12u32) | (((b1 & 0x3f) as u32) << 6u32) | ((b2
            & 0x3f) as u32);
        proof {
            assert(cp <= 0xffff) by (bit_vector)
                requires
                    cp == (((b0 & 0x0f) as u32) << 12u32) | (((b1 & 0x3f) as u32) << 6u32) | ((b2
                        & 0x3f) as u32),
            ;
        }
    } else {
        proof {
            assert(suffix.len() >= 4);
            assert(suffix[1] == text@[i + 1]);
            assert(suffix[2] == text@[i + 2]);
            assert(suffix[3] == text@[i + 3]);
        }
        let b1 = text[i + 1];
        let b2 = text[i + 2];
        let b3 = text[i + 3];
        cp = (((b0 & 0x07) as u32) << 18u32) | (((b1 & 0x3f) as u32) << 12u32) | (((b2
            & 0x3f) as u32) << 6u32) | ((b3 & 0x3f) as u32);
    }
    proof {
        assert(cp == spec_char_at(text@, i as int));
        assert(is_scalar(cp));
    }
    match char::from_u32(cp) {
        Some(c) => c,
        None => {
            proof {
                assert(false);
            }
            ' '
        },
    }
}

/// The UTF-8 encoding of a single character as a byte vector.
pub fn encode_char(c: char) -> (v: Vec<u8>)
    ensures
        v@ == encode_scalar(c as u32),
        valid_utf8(v@),
        1 <= v@.len() <= 4,
{
    broadcast use vstd::utf8::char_is_scalar;

    let u = c as u32;
    let mut v: Vec<u8> = Vec::new();
    if u <= 0x7f {
        v.push((u & 0x7f) as u8);
        proof {
            assert(v@ =~= encode_scalar(u));
        }
    } else if u <= 0x7ff {
        v.push(0xc0 | ((u >> 6u32) & 0x1f) as u8);
        v.push(0x80 | (u & 0x3f) as u8);
        proof {
            assert(v@ =~= encode_scalar(u));
        }
    } else if u <= 0xffff {
        v.push(0xe0 | ((u >> 12u32) & 0x0f) as u8);
        v.push(0x80 | ((u >> 6u32) & 0x3f) as u8);
        v.push(0x80 | (u & 0x3f) as u8);
        proof {
            assert(v@ =~= encode_scalar(u));
        }
    } else {
        v.push(0xf0 | ((u >> 18u32) & 0x7) as u8);
        v.push(0x80 | ((u >> 12u32) & 0x3f) as u8);
        v.push(0x80 | ((u >> 6u32) & 0x3f) as u8);
        v.push(0x80 | (u & 0x3f) as u8);
        proof {
            assert(v@ =~= encode_scalar(u));
        }
    }
    proof {
        lemma_encode_scalar_valid(c);
    }
    v
}

/// The encoding of a single character is valid UTF-8.
pub proof fn lemma_encode_scalar_valid(c: char)
    ensures
        valid_utf8(encode_scalar(c as u32)),
        encode_scalar(c as u32) == encode_utf8(seq![c]),
{
    broadcast use vstd::utf8::char_is_scalar, vstd::utf8::encode_utf8_valid_utf8;

    let chars = seq![c];
    assert(chars.drop_first() =~= Seq::<char>::empty());
    assert(encode_utf8(chars.drop_first()) =~= Seq::<u8>::empty());
    assert(encode_scalar(c as u32) + encode_utf8(chars.drop_first()) =~= encode_scalar(c as u32));
    assert(valid_utf8(encode_utf8(chars)));
}

/// A UTF-8 encoding takes at most four bytes per character.
pub proof fn lemma_encode_utf8_len(chars: Seq<char>)
    ensures
        encode_utf8(chars).len() <= 4 * chars.len(),
    decreases chars.len(),
{
    if chars.len() > 0 {
        lemma_encode_utf8_len(chars.drop_first());
    }
}

/// Inserting valid UTF-8 at a character boundary keeps the buffer valid UTF-8.
pub proof fn lemma_insert_valid(s: Seq<u8>, at: int, ins: Seq<u8>)
    requires
        valid_utf8(s),
        valid_utf8(ins),
        0 <= at <= s.len(),
        is_char_boundary(s, at),
    ensures
        valid_utf8(s.subrange(0, at) + ins + s.subrange(at, s.len() as int)),
{
    let head = s.subrange(0, at);
    let tail = s.subrange(at, s.len() as int);
    assert(valid_utf8(head));
    assert(valid_utf8(tail));
    assert(valid_utf8(head + ins));
    assert((head + ins) + tail =~= head + ins + tail);
    assert(valid_utf8((head + ins) + tail));
}

} // verus!

//! Single-line editing on a UTF-8 string with a byte cursor.
//!
//! Every operation keeps the cursor on a character boundary. The `spec_*`
//! functions give the resulting text and cursor of each operation.
use vstd::prelude::*;
use crate::text::{
    byte_len, byte_offset, char_index, char_len_utf8, char_width, chars_of, insert_at, is_boundary,
    lemma_char_index, lemma_offset_bounded, lemma_offset_full, lemma_offset_insert,
    lemma_offset_remove, lemma_offset_step, locate, remove_at, str_byte_len,
};

verus! {

/// The cursor sits between two characters (or at an end) and the text fits in memory.
pub open spec fn cursor_ok(v: Seq<char>, cursor: int) -> bool {
    is_boundary(v, cursor) && byte_len(v) <= isize::MAX
}

/// Text and cursor after inserting `c` at the cursor.
pub open spec fn spec_insert(v: Seq<char>, cursor: int, c: char) -> (Seq<char>, int) {
    (v.insert(char_index(v, cursor), c), cursor + char_width(c))
}

/// Text and cursor after deleting the character before the cursor.
pub open spec fn spec_remove_prev(v: Seq<char>, cursor: int) -> (Seq<char>, int) {
    let k = char_index(v, cursor);
    if k <= 0 {
        (v, cursor)
    } else {
        (v.remove(k - 1), byte_offset(v, k - 1) as int)
    }
}

/// Text and cursor after deleting the character at the cursor.
pub open spec fn spec_remove_next(v: Seq<char>, cursor: int) -> (Seq<char>, int) {
    let k = char_index(v, cursor);
    if k >= v.len() {
        (v, cursor)
    } else {
        (v.remove(k), cursor)
    }
}

/// Cursor after stepping one character to the left.
pub open spec fn spec_move_left(v: Seq<char>, cursor: int) -> int {
    let k = char_index(v, cursor);
    if k <= 0 {
        cursor
    } else {
        byte_offset(v, k - 1) as int
    }
}

/// Cursor after stepping one character to the right.
pub open spec fn spec_move_right(v: Seq<char>, cursor: int) -> int {
    let k = char_index(v, cursor);
    if k >= v.len() {
        cursor
    } else {
        byte_offset(v, k + 1) as int
    }
}

/// Inserting a character and then deleting the one before the cursor gives
/// back the text and cursor it started from.
pub proof fn lemma_insert_then_remove_prev(v: Seq<char>, cursor: int, c: char)
    requires
        cursor_ok(v, cursor),
    ensures
        spec_remove_prev(spec_insert(v, cursor, c).0, spec_insert(v, cursor, c).1) == (v, cursor),
{
    let k = char_index(v, cursor);
    let w = v.insert(k, c);
    lemma_offset_insert(v, k, c);
    lemma_char_index(w, k + 1);
    assert(w.remove(k) =~= v);
}

/// Inserts `c` at the cursor; returns the new cursor, just after `c`.
pub fn insert_at_cursor(s: &mut String, cursor: usize, c: char) -> (r: usize)
    requires
        cursor_ok(old(s)@, cursor as int),
        byte_len(old(s)@) + char_width(c) <= isize::MAX,
    ensures
        (final(s)@, r as int) == spec_insert(old(s)@, cursor as int, c),
        cursor_ok(final(s)@, r as int),
        byte_len(final(s)@) == byte_len(old(s)@) + char_width(c),
{
    let ghost v = s@;
    let ghost k = char_index(v, cursor as int);
    let w = char_len_utf8(c);
    proof {
        lemma_offset_bounded(v, k);
        lemma_offset_insert(v, k, c);
        lemma_char_index(v.insert(k, c), k + 1);
    }
    insert_at(s, cursor, c);
    cursor + w
}

/// Deletes the character before the cursor, if any; returns the new cursor.
pub fn remove_before_cursor(s: &mut String, cursor: usize) -> (r: usize)
    requires
        cursor_ok(old(s)@, cursor as int),
    ensures
        (final(s)@, r as int) == spec_remove_prev(old(s)@, cursor as int),
        cursor_ok(final(s)@, r as int),
        byte_len(final(s)@) <= byte_len(old(s)@),
{
    let ghost v = s@;
    let chars = chars_of(s.as_str());
    let (k, _off) = locate(&chars, cursor);
    proof {
        lemma_char_index(v, k as int);
    }
    if k == 0 {
        return cursor;
    }
    let w = char_len_utf8(chars[k - 1]);
    proof {
        lemma_offset_step(v, k - 1);
        lemma_offset_bounded(v, k as int);
        lemma_offset_remove(v, k - 1);
        lemma_char_index(v, k - 1);
        lemma_char_index(v.remove(k - 1), k - 1);
    }
    let start = cursor - w;
    let _ = remove_at(s, start);
    start
}

/// Deletes the character at the cursor, if any; the cursor stays.
pub fn remove_at_cursor(s: &mut String, cursor: usize)
    requires
        cursor_ok(old(s)@, cursor as int),
    ensures
        (final(s)@, cursor as int) == spec_remove_next(old(s)@, cursor as int),
        cursor_ok(final(s)@, cursor as int),
        byte_len(final(s)@) <= byte_len(old(s)@),
{
    let ghost v = s@;
    let chars = chars_of(s.as_str());
    let (k, _off) = locate(&chars, cursor);
    proof {
        lemma_char_index(v, k as int);
    }
    if k >= chars.len() {
        return;
    }
    proof {
        lemma_offset_step(v, k as int);
        lemma_offset_bounded(v, k + 1);
        lemma_offset_remove(v, k as int);
        lemma_char_index(v.remove(k as int), k as int);
    }
    let _ = remove_at(s, cursor);
}

/// Cursor one character to the left, stopping at the start.
pub fn step_left(s: &String, cursor: usize) -> (r: usize)
    requires
        cursor_ok(s@, cursor as int),
    ensures
        r == spec_move_left(s@, cursor as int),
        cursor_ok(s@, r as int),
{
    let chars = chars_of(s.as_str());
    let (k, _off) = locate(&chars, cursor);
    proof {
        lemma_char_index(s@, k as int);
    }
    if k == 0 {
        return cursor;
    }
    let w = char_len_utf8(chars[k - 1]);
    proof {
        lemma_offset_step(s@, k - 1);
        lemma_char_index(s@, k - 1);
    }
    cursor - w
}

/// Cursor one character to the right, stopping at the end.
pub fn step_right(s: &String, cursor: usize) -> (r: usize)
    requires
        cursor_ok(s@, cursor as int),
    ensures
        r == spec_move_right(s@, cursor as int),
        cursor_ok(s@, r as int),
{
    let chars = chars_of(s.as_str());
    let (k, _off) = locate(&chars, cursor);
    proof {
        lemma_char_index(s@, k as int);
    }
    if k >= chars.len() {
        return cursor;
    }
    let w = char_len_utf8(chars[k]);
    proof {
        lemma_offset_step(s@, k as int);
        lemma_offset_bounded(s@, k + 1);
        lemma_char_index(s@, k + 1);
    }
    cursor + w
}

/// The character just before the cursor, if any.
pub fn char_before(s: &String, cursor: usize) -> (r: Option<char>)
    requires
        cursor_ok(s@, cursor as int),
    ensures
        r == (if char_index(s@, cursor as int) > 0 {
            Some(s@[char_index(s@, cursor as int) - 1])
        } else {
            None::<char>
        }),
{
    let chars = chars_of(s.as_str());
    let (k, _off) = locate(&chars, cursor);
    proof {
        lemma_char_index(s@, k as int);
    }
    if k == 0 {
        None
    } else {
        Some(chars[k - 1])
    }
}

/// The character just after the cursor, if any.
pub fn char_after(s: &String, cursor: usize) -> (r: Option<char>)
    requires
        cursor_ok(s@, cursor as int),
    ensures
        r == (if char_index(s@, cursor as int) < s@.len() {
            Some(s@[char_index(s@, cursor as int)])
        } else {
            None::<char>
        }),
{
    let chars = chars_of(s.as_str());
    let (k, _off) = locate(&chars, cursor);
    proof {
        lemma_char_index(s@, k as int);
    }
    if k >= chars.len() {
        None
    } else {
        Some(chars[k])
    }
}

/// Byte length of the text, which is the cursor position at its end.
pub fn end_position(s: &String) -> (r: usize)
    requires
        byte_len(s@) <= isize::MAX,
    ensures
        r == byte_len(s@),
        is_boundary(s@, r as int),
        char_index(s@, r as int) == s@.len(),
{
    proof {
        lemma_offset_full(s@);
        lemma_char_index(s@, s@.len() as int);
    }
    str_byte_len(s.as_str())
}

/// The nearest boundary at or before `cursor`.
pub fn snap_to_boundary(s: &String, cursor: usize) -> (r: usize)
    requires
        byte_len(s@) <= isize::MAX,
    ensures
        cursor_ok(s@, r as int),
        r <= cursor,
        is_boundary(s@, cursor as int) ==> r == cursor,
        cursor >= byte_len(s@) ==> r == byte_len(s@),
{
    let chars = chars_of(s.as_str());
    let (k, off) = locate(&chars, cursor);
    proof {
        lemma_char_index(s@, k as int);
        lemma_offset_full(s@);
        if cursor >= byte_len(s@) && k < s@.len() {
            lemma_offset_bounded(s@, k + 1);
        }
        if cursor >= byte_len(s@) {
            if k < s@.len() {
            } else {
                assert(k == s@.len());
            }
        }
    }
    off
}

} // verus!

//! A general single-line text field.
use vstd::prelude::*;
use crate::edit::{
    char_after, char_before,
    cursor_ok, end_position, insert_at_cursor, remove_at_cursor, remove_before_cursor,
    spec_insert, spec_move_left, spec_move_right, spec_remove_next, spec_remove_prev, step_left,
    step_right,
};
use crate::keys::{is_control, is_control_char, KeyCode};
use crate::text::{byte_len, char_width, lemma_char_index};

verus! {

/// Text and cursor after the text field handles `code`.
pub open spec fn spec_text_key(v: Seq<char>, cursor: int, code: KeyCode) -> (Seq<char>, int) {
    match code {
        KeyCode::Backspace => spec_remove_prev(v, cursor),
        KeyCode::Delete => spec_remove_next(v, cursor),
        KeyCode::Left => (v, spec_move_left(v, cursor)),
        KeyCode::Right => (v, spec_move_right(v, cursor)),
        KeyCode::Home => (v, 0),
        KeyCode::End => (v, byte_len(v) as int),
        KeyCode::Char(c) => if is_control_char(c) {
            (v, cursor)
        } else {
            spec_insert(v, cursor, c)
        },
        _ => (v, cursor),
    }
}

/// Inserting a character and then deleting the one before the cursor gives
/// back the text and cursor the field started from.
pub proof fn lemma_text_insert_then_remove_prev(t0: TextInput, t1: TextInput, t2: TextInput, c: char)
    requires
        t0.wf(),
        (t1.value@, t1.cursor as int) == spec_insert(t0.value@, t0.cursor as int, c),
        (t2.value@, t2.cursor as int) == spec_remove_prev(t1.value@, t1.cursor as int),
    ensures
        t2.value@ == t0.value@,
        t2.cursor == t0.cursor,
{
    crate::edit::lemma_insert_then_remove_prev(t0.value@, t0.cursor as int, c);
}

/// A text value with a byte cursor that always sits on a character boundary,
/// and an optional validation message.
#[derive(Debug)]
pub struct TextInput {
    pub value: String,
    pub cursor: usize,
    pub error: Option<String>,
}

impl Default for TextInput {
    fn default() -> (r: TextInput)
        ensures
            r.value@ == Seq::<char>::empty(),
            r.cursor == 0,
            r.error is None,
    {
        TextInput { value: String::new(), cursor: 0, error: None }
    }
}

impl TextInput {
    /// The cursor is on a character boundary of the value.
    pub open spec fn wf(&self) -> bool {
        cursor_ok(self.value@, self.cursor as int)
    }

    /// An empty field is well formed.
    pub proof fn lemma_empty_wf(&self)
        requires
            self.value@.len() == 0,
            self.cursor == 0,
        ensures
            self.wf(),
    {
        lemma_char_index(self.value@, 0);
    }

    /// Applies one key: edits, cursor moves, or nothing.
    pub fn handle_key(&mut self, code: KeyCode)
        requires
            old(self).wf(),
            byte_len(old(self).value@) + 4 <= isize::MAX,
        ensures
            final(self).error == (if final(self).value@ == old(self).value@ {
                old(self).error
            } else {
                None
            }),
            byte_len(final(self).value@) <= byte_len(old(self).value@) + 4,
            final(self).wf(),
            (final(self).value@, final(self).cursor as int) == spec_text_key(
                old(self).value@,
                old(self).cursor as int,
                code,
            ),
    {
        match code {
            KeyCode::Backspace => self.remove_prev(),
            KeyCode::Delete => self.remove_next(),
            KeyCode::Left => self.move_left(),
            KeyCode::Right => self.move_right(),
            KeyCode::Home => {
                proof {
                    lemma_char_index(self.value@, 0);
                }
                self.cursor = 0;
            },
            KeyCode::End => {
                self.cursor = end_position(&self.value);
            },
            KeyCode::Char(c) => {
                if !is_control(c) {
                    self.insert_char(c);
                    assert(self.value@.len() != old(self).value@.len());
                }
            },
            _ => {},
        }
    }

    /// Inserts `c` at the cursor and moves the cursor past it.
    pub fn insert_char(&mut self, c: char)
        requires
            old(self).wf(),
            byte_len(old(self).value@) + char_width(c) <= isize::MAX,
        ensures
            final(self).error is None,
            byte_len(final(self).value@) == byte_len(old(self).value@) + char_width(c),
            final(self).wf(),
            (final(self).value@, final(self).cursor as int) == spec_insert(
                old(self).value@,
                old(self).cursor as int,
                c,
            ),
    {
        self.cursor = insert_at_cursor(&mut self.value, self.cursor, c);
        self.error = None;
    }

    /// Moves the cursor one character left, if not at the start.
    pub fn move_left(&mut self)
        requires
            old(self).wf(),
        ensures
            final(self).error == old(self).error,
            final(self).wf(),
            final(self).value@ == old(self).value@,
            final(self).cursor == spec_move_left(old(self).value@, old(self).cursor as int),
    {
        self.cursor = step_left(&self.value, self.cursor);
    }

    /// Moves the cursor one character right, if not at the end.
    pub fn move_right(&mut self)
        requires
            old(self).wf(),
        ensures
            final(self).error == old(self).error,
            final(self).wf(),
            final(self).value@ == old(self).value@,
            final(self).cursor == spec_move_right(old(self).value@, old(self).cursor as int),
    {
        self.cursor = step_right(&self.value, self.cursor);
    }

    /// Deletes the character before the cursor, if any.
    pub fn remove_prev(&mut self)
        requires
            old(self).wf(),
        ensures
            final(self).error == (if final(self).value@ == old(self).value@ {
                old(self).error
            } else {
                None
            }),
            byte_len(final(self).value@) <= byte_len(old(self).value@),
            final(self).wf(),
            (final(self).value@, final(self).cursor as int) == spec_remove_prev(
                old(self).value@,
                old(self).cursor as int,
            ),
    {
        let ghost v = self.value@;
        let before = char_before(&self.value, self.cursor);
        self.cursor = remove_before_cursor(&mut self.value, self.cursor);
        if before.is_some() {
            self.error = None;
            assert(self.value@.len() < v.len());
        }
    }

    /// Deletes the character at the cursor, if any.
    pub fn remove_next(&mut self)
        requires
            old(self).wf(),
        ensures
            final(self).error == (if final(self).value@ == old(self).value@ {
                old(self).error
            } else {
                None
            }),
            byte_len(final(self).value@) <= byte_len(old(self).value@),
            final(self).wf(),
            (final(self).value@, final(self).cursor as int) == spec_remove_next(
                old(self).value@,
                old(self).cursor as int,
            ),
    {
        let ghost v = self.value@;
        let after = char_after(&self.value, self.cursor);
        remove_at_cursor(&mut self.value, self.cursor);
        if after.is_some() {
            self.error = None;
            assert(self.value@.len() < v.len());
        }
    }
}

} // verus!

//! The text field used to name a new branch.
//!
//! Spaces and dashes both insert a single `-`, and never next to another `-`.
use vstd::prelude::*;
use crate::edit::{
    char_after, char_before, cursor_ok, insert_at_cursor, remove_at_cursor, remove_before_cursor,
    snap_to_boundary, spec_insert, spec_move_left, spec_move_right, spec_remove_next,
    spec_remove_prev, step_left, step_right,
};
use crate::keys::KeyCode;
use crate::text::{byte_len, char_index, char_width, lemma_char_index};

verus! {

/// A dash may go at the cursor when neither neighbouring character is a dash.
pub open spec fn dash_allowed(v: Seq<char>, cursor: int) -> bool {
    let k = char_index(v, cursor);
    !(k > 0 && v[k - 1] == '-') && !(k < v.len() && v[k] == '-')
}

/// Text and cursor after the branch-name field handles `code`.
pub open spec fn spec_branch_key(v: Seq<char>, cursor: int, code: KeyCode) -> (Seq<char>, int) {
    match code {
        KeyCode::Backspace => spec_remove_prev(v, cursor),
        KeyCode::Delete => spec_remove_next(v, cursor),
        KeyCode::Left => (v, spec_move_left(v, cursor)),
        KeyCode::Right => (v, spec_move_right(v, cursor)),
        KeyCode::Char(c) => if c == ' ' || c == '-' {
            if dash_allowed(v, cursor) {
                spec_insert(v, cursor, '-')
            } else {
                (v, cursor)
            }
        } else {
            spec_insert(v, cursor, c)
        },
        _ => (v, cursor),
    }
}

/// No two dashes stand next to each other.
pub open spec fn no_double_dash(v: Seq<char>) -> bool {
    forall|i: int| 0 <= i < v.len() - 1 ==> !(#[trigger] v[i] == '-' && v[i + 1] == '-')
}

/// Inserting a non-dash, or a dash with no dash beside it, creates no double dash.
pub proof fn lemma_insert_keeps_no_double_dash(v: Seq<char>, k: int, c: char)
    requires
        no_double_dash(v),
        0 <= k <= v.len(),
        c == '-' ==> !(k > 0 && v[k - 1] == '-') && !(k < v.len() && v[k] == '-'),
    ensures
        no_double_dash(v.insert(k, c)),
{
    let w = v.insert(k, c);
    assert forall|i: int| 0 <= i < w.len() - 1 implies !(#[trigger] w[i] == '-' && w[i + 1] == '-') by {
        if i + 1 < k {
            assert(w[i] == v[i] && w[i + 1] == v[i + 1]);
        } else if i + 1 == k {
            assert(w[i] == v[i] && w[i + 1] == c);
        } else if i == k {
            assert(w[i] == c);
            if i + 1 < w.len() {
                assert(w[i + 1] == v[k]);
            }
        } else {
            assert(w[i] == v[i - 1] && w[i + 1] == v[i]);
        }
    }
}

/// Typing into the field (a character, a space or a dash) never creates a
/// double dash in a name that had none.
pub proof fn lemma_typing_keeps_no_double_dash(v: Seq<char>, cursor: int, c: char)
    requires
        cursor_ok(v, cursor),
        no_double_dash(v),
    ensures
        no_double_dash(spec_branch_key(v, cursor, KeyCode::Char(c)).0),
{
    let k = char_index(v, cursor);
    if c == ' ' || c == '-' {
        if dash_allowed(v, cursor) {
            lemma_insert_keeps_no_double_dash(v, k, '-');
        }
    } else {
        lemma_insert_keeps_no_double_dash(v, k, c);
    }
}

/// Inserting a character and then deleting the one before the cursor gives
/// back the name and cursor it started from, with no message left.
pub proof fn lemma_branch_insert_then_remove_prev(b0: BranchInput, b1: BranchInput, b2: BranchInput, c: char)
    requires
        b0.wf(),
        (b1.value@, b1.cursor as int) == spec_insert(b0.value@, b0.cursor as int, c),
        b1.error is None,
        (b2.value@, b2.cursor as int) == spec_remove_prev(b1.value@, b1.cursor as int),
        b2.error == (if b2.value@ == b1.value@ {
            b1.error
        } else {
            None
        }),
    ensures
        b2.value@ == b0.value@,
        b2.cursor == b0.cursor,
        b2.error is None,
{
    crate::edit::lemma_insert_then_remove_prev(b0.value@, b0.cursor as int, c);
}

/// The branch-name field: a value, a byte cursor and an optional validation message.
#[derive(Debug)]
pub struct BranchInput {
    pub value: String,
    pub error: Option<String>,
    pub cursor: usize,
}

impl Default for BranchInput {
    fn default() -> (r: BranchInput)
        ensures
            r.value@ == Seq::<char>::empty(),
            r.error is None,
            r.cursor == 0,
            r.wf(),
    {
        let r = BranchInput { value: String::new(), error: None, cursor: 0 };
        proof {
            lemma_char_index(r.value@, 0);
        }
        r
    }
}

impl BranchInput {
    /// The cursor is on a character boundary of the value.
    pub open spec fn wf(&self) -> bool {
        cursor_ok(self.value@, self.cursor as int)
    }

    /// Puts the cursor back on a character boundary: the end when it is past the
    /// value, otherwise the nearest boundary at or before it.
    pub fn clamp_cursor(&mut self)
        requires
            byte_len(old(self).value@) <= isize::MAX,
        ensures
            final(self).wf(),
            final(self).value@ == old(self).value@,
            final(self).error == old(self).error,
            final(self).cursor <= old(self).cursor,
            cursor_ok(old(self).value@, old(self).cursor as int) ==> final(self).cursor
                == old(self).cursor,
            old(self).cursor >= byte_len(old(self).value@) ==> final(self).cursor == byte_len(
                old(self).value@,
            ),
    {
        self.cursor = snap_to_boundary(&self.value, self.cursor);
    }

    /// Applies one editing key. A validation message is dropped whenever the
    /// value changes.
    pub fn handle_edit_key(&mut self, code: KeyCode)
        requires
            old(self).wf(),
            byte_len(old(self).value@) + 4 <= isize::MAX,
        ensures
            code is Char && no_double_dash(old(self).value@) ==> no_double_dash(final(self).value@),
            byte_len(final(self).value@) <= byte_len(old(self).value@) + 4,
            final(self).wf(),
            (final(self).value@, final(self).cursor as int) == spec_branch_key(
                old(self).value@,
                old(self).cursor as int,
                code,
            ),
            final(self).error == (if final(self).value@ == old(self).value@ {
                old(self).error
            } else {
                None
            }),
    {
        proof {
            if let KeyCode::Char(c) = code {
                if no_double_dash(self.value@) {
                    lemma_typing_keeps_no_double_dash(self.value@, self.cursor as int, c);
                }
            }
        }
        match code {
            KeyCode::Backspace => self.remove_prev(),
            KeyCode::Delete => self.remove_next(),
            KeyCode::Left => self.move_left(),
            KeyCode::Right => self.move_right(),
            KeyCode::Char(c) => {
                if c == ' ' || c == '-' {
                    self.insert_dash();
                } else {
                    self.insert_char(c);
                }
            },
            _ => {},
        }
    }

    /// Inserts `c` at the cursor, moves the cursor past it and drops any message.
    pub fn insert_char(&mut self, c: char)
        requires
            old(self).wf(),
            byte_len(old(self).value@) + char_width(c) <= isize::MAX,
        ensures
            byte_len(final(self).value@) == byte_len(old(self).value@) + char_width(c),
            final(self).wf(),
            (final(self).value@, final(self).cursor as int) == spec_insert(
                old(self).value@,
                old(self).cursor as int,
                c,
            ),
            final(self).error is None,
            final(self).value@ != old(self).value@,
    {
        self.cursor = insert_at_cursor(&mut self.value, self.cursor, c);
        self.error = None;
        assert(self.value@.len() != old(self).value@.len());
    }

    /// Inserts a dash unless one is already next to the cursor.
    pub fn insert_dash(&mut self)
        requires
            old(self).wf(),
            byte_len(old(self).value@) + 1 <= isize::MAX,
        ensures
            no_double_dash(old(self).value@) ==> no_double_dash(final(self).value@),
            byte_len(final(self).value@) <= byte_len(old(self).value@) + 1,
            final(self).wf(),
            (final(self).value@, final(self).cursor as int) == (if dash_allowed(
                old(self).value@,
                old(self).cursor as int,
            ) {
                spec_insert(old(self).value@, old(self).cursor as int, '-')
            } else {
                (old(self).value@, old(self).cursor as int)
            }),
            final(self).error == (if final(self).value@ == old(self).value@ {
                old(self).error
            } else {
                None
            }),
    {
        proof {
            if no_double_dash(self.value@) && dash_allowed(self.value@, self.cursor as int) {
                lemma_insert_keeps_no_double_dash(
                    self.value@,
                    char_index(self.value@, self.cursor as int),
                    '-',
                );
            }
        }
        if self.can_insert_dash() {
            self.insert_char('-');
        }
    }

    /// Neither the character before nor the one after the cursor is a dash.
    pub fn can_insert_dash(&self) -> (r: bool)
        requires
            self.wf(),
        ensures
            r == dash_allowed(self.value@, self.cursor as int),
    {
        let prev_is_dash = match char_before(&self.value, self.cursor) {
            Some(c) => c == '-',
            None => false,
        };
        let next_is_dash = match char_after(&self.value, self.cursor) {
            Some(c) => c == '-',
            None => false,
        };
        !prev_is_dash && !next_is_dash
    }

    /// Moves the cursor one character left, if not at the start.
    pub fn move_left(&mut self)
        requires
            old(self).wf(),
        ensures
            final(self).wf(),
            final(self).value@ == old(self).value@,
            final(self).error == old(self).error,
            final(self).cursor == spec_move_left(old(self).value@, old(self).cursor as int),
    {
        self.cursor = step_left(&self.value, self.cursor);
    }

    /// Moves the cursor one character right, if not at the end.
    pub fn move_right(&mut self)
        requires
            old(self).wf(),
        ensures
            final(self).wf(),
            final(self).value@ == old(self).value@,
            final(self).error == old(self).error,
            final(self).cursor == spec_move_right(old(self).value@, old(self).cursor as int),
    {
        self.cursor = step_right(&self.value, self.cursor);
    }

    /// Deletes the character before the cursor, if any, dropping any message.
    pub fn remove_prev(&mut self)
        requires
            old(self).wf(),
        ensures
            byte_len(final(self).value@) <= byte_len(old(self).value@),
            final(self).wf(),
            (final(self).value@, final(self).cursor as int) == spec_remove_prev(
                old(self).value@,
                old(self).cursor as int,
            ),
            final(self).error == (if final(self).value@ == old(self).value@ {
                old(self).error
            } else {
                None
            }),
    {
        let ghost v = self.value@;
        let before = char_before(&self.value, self.cursor);
        self.cursor = remove_before_cursor(&mut self.value, self.cursor);
        if before.is_some() {
            self.error = None;
            assert(self.value@.len() < v.len());
        }
    }

    /// Deletes the character at the cursor, if any, dropping any message.
    pub fn remove_next(&mut self)
        requires
            old(self).wf(),
        ensures
            byte_len(final(self).value@) <= byte_len(old(self).value@),
            final(self).wf(),
            (final(self).value@, final(self).cursor as int) == spec_remove_next(
                old(self).value@,
                old(self).cursor as int,
            ),
            final(self).error == (if final(self).value@ == old(self).value@ {
                old(self).error
            } else {
                None
            }),
    {
        let ghost v = self.value@;
        let before = char_after(&self.value, self.cursor);
        remove_at_cursor(&mut self.value, self.cursor);
        if before.is_some() {
            self.error = None;
            assert(self.value@.len() < v.len());
        }
    }
}

} // verus!

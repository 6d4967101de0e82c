//! The text editing engine: a character buffer with a cursor, plus the
//! navigation and mutation operations a single-line input field needs.
//!
//! Cursor positions are character offsets (one per character, whatever its
//! byte length), and every operation keeps the cursor inside
//! `0 ..= character count`.

use vstd::prelude::*;

verus! {

/// Whitespace as word navigation understands it (the ASCII whitespace set).
pub open spec fn is_space_char(c: char) -> bool {
    c == ' ' || c == '\t' || c == '\n' || c == '\r' || c == '\x0c'
}

pub(crate) fn is_space(c: char) -> (r: bool)
    ensures
        r == is_space_char(c),
{
    c == ' ' || c == '\t' || c == '\n' || c == '\r' || c == '\x0c'
}

/// Position reached from `i` by walking left over whitespace.
pub open spec fn skip_spaces_back(s: Seq<char>, i: int) -> int
    decreases i,
{
    if 0 < i <= s.len() && is_space_char(s[i - 1]) {
        skip_spaces_back(s, i - 1)
    } else {
        i
    }
}

/// Position reached from `i` by walking left over non-whitespace.
pub open spec fn skip_word_back(s: Seq<char>, i: int) -> int
    decreases i,
{
    if 0 < i <= s.len() && !is_space_char(s[i - 1]) {
        skip_word_back(s, i - 1)
    } else {
        i
    }
}

/// Position reached from `i` by walking right over non-whitespace.
pub open spec fn skip_word_fwd(s: Seq<char>, i: int) -> int
    decreases s.len() - i,
{
    if 0 <= i < s.len() && !is_space_char(s[i]) {
        skip_word_fwd(s, i + 1)
    } else {
        i
    }
}

/// Position reached from `i` by walking right over whitespace.
pub open spec fn skip_spaces_fwd(s: Seq<char>, i: int) -> int
    decreases s.len() - i,
{
    if 0 <= i < s.len() && is_space_char(s[i]) {
        skip_spaces_fwd(s, i + 1)
    } else {
        i
    }
}

/// Where `move_word_left` puts the cursor: back over trailing whitespace,
/// then back to the start of the word before it (or the buffer start).
pub open spec fn word_left_pos(s: Seq<char>, i: int) -> int {
    skip_word_back(s, skip_spaces_back(s, i))
}

/// Where `move_word_right` puts the cursor: forward over the rest of the
/// current word, then over the whitespace run after it (or the buffer end).
pub open spec fn word_right_pos(s: Seq<char>, i: int) -> int {
    skip_spaces_fwd(s, skip_word_fwd(s, i))
}

proof fn lemma_skip_spaces_back_bounds(s: Seq<char>, i: int)
    requires
        0 <= i <= s.len(),
    ensures
        0 <= skip_spaces_back(s, i) <= i,
    decreases i,
{
    if 0 < i && is_space_char(s[i - 1]) {
        lemma_skip_spaces_back_bounds(s, i - 1);
    }
}

proof fn lemma_skip_word_back_bounds(s: Seq<char>, i: int)
    requires
        0 <= i <= s.len(),
    ensures
        0 <= skip_word_back(s, i) <= i,
    decreases i,
{
    if 0 < i && !is_space_char(s[i - 1]) {
        lemma_skip_word_back_bounds(s, i - 1);
    }
}

proof fn lemma_skip_word_fwd_bounds(s: Seq<char>, i: int)
    requires
        0 <= i <= s.len(),
    ensures
        i <= skip_word_fwd(s, i) <= s.len(),
    decreases s.len() - i,
{
    if i < s.len() && !is_space_char(s[i]) {
        lemma_skip_word_fwd_bounds(s, i + 1);
    }
}

proof fn lemma_skip_spaces_fwd_bounds(s: Seq<char>, i: int)
    requires
        0 <= i <= s.len(),
    ensures
        i <= skip_spaces_fwd(s, i) <= s.len(),
    decreases s.len() - i,
{
    if i < s.len() && is_space_char(s[i]) {
        lemma_skip_spaces_fwd_bounds(s, i + 1);
    }
}

/// Law: word navigation lands inside the buffer, whatever the text.
pub proof fn lemma_word_positions_in_bounds(s: Seq<char>, i: int)
    requires
        0 <= i <= s.len(),
    ensures
        0 <= word_left_pos(s, i) <= i,
        i <= word_right_pos(s, i) <= s.len(),
{
    lemma_skip_spaces_back_bounds(s, i);
    lemma_skip_word_back_bounds(s, skip_spaces_back(s, i));
    lemma_skip_word_fwd_bounds(s, i);
    lemma_skip_spaces_fwd_bounds(s, skip_word_fwd(s, i));
}

/// A single-line text value together with its cursor.
pub struct TextBuffer {
    value: Vec<char>,
    cursor: usize,
}

/// One editing or navigation operation on a [`TextBuffer`].
#[derive(Clone, PartialEq, Eq, Debug)]
pub enum EditOp {
    /// Move the cursor one character to the left.
    CharLeft,
    /// Move the cursor one character to the right.
    CharRight,
    /// Move the cursor to the start of the line.
    LineStart,
    /// Move the cursor to the end of the line.
    LineEnd,
    /// Move the cursor one word to the left.
    WordLeft,
    /// Move the cursor one word to the right.
    WordRight,
    /// Remove the character left of the cursor.
    DeletePrev,
    /// Remove the character right of the cursor.
    DeleteNext,
    /// Insert one character at the cursor.
    Insert(char),
}

/// The text and cursor that `op` produces from `text` and `cursor`.
pub open spec fn edit_result(text: Seq<char>, cursor: int, op: EditOp) -> (Seq<char>, int) {
    match op {
        EditOp::CharLeft => (text, if cursor > 0 { cursor - 1 } else { 0 }),
        EditOp::CharRight => (text, if cursor < text.len() { cursor + 1 } else { text.len() as int }),
        EditOp::LineStart => (text, 0),
        EditOp::LineEnd => (text, text.len() as int),
        EditOp::WordLeft => (text, word_left_pos(text, cursor)),
        EditOp::WordRight => (text, word_right_pos(text, cursor)),
        EditOp::DeletePrev => if cursor > 0 {
            (text.remove(cursor - 1), cursor - 1)
        } else {
            (text, cursor)
        },
        EditOp::DeleteNext => if cursor < text.len() {
            (text.remove(cursor), cursor)
        } else {
            (text, cursor)
        },
        EditOp::Insert(c) => (text.insert(cursor, c), cursor + 1),
    }
}

impl TextBuffer {
    /// The buffered text as a character sequence.
    pub closed spec fn text(self) -> Seq<char> {
        self.value@
    }

    /// The cursor, as a character offset into the text.
    pub closed spec fn cursor_at(self) -> int {
        self.cursor as int
    }

    /// The cursor sits between 0 and the character count, inclusive.
    pub open spec fn wf(self) -> bool {
        0 <= self.cursor_at() <= self.text().len()
    }

    /// An empty buffer with the cursor at the start.
    pub fn new() -> (r: TextBuffer)
        ensures
            r.wf(),
            r.text() == Seq::<char>::empty(),
            r.cursor_at() == 0,
    {
        TextBuffer { value: Vec::new(), cursor: 0 }
    }

    /// A buffer holding `value`, with the cursor at the end of it.
    pub fn with_value(value: Vec<char>) -> (r: TextBuffer)
        ensures
            r.wf(),
            r.text() == value@,
            r.cursor_at() == value@.len(),
    {
        let cursor = value.len();
        TextBuffer { value, cursor }
    }

    /// The current text, copied out.
    pub fn chars(&self) -> (r: Vec<char>)
        ensures
            r@ == self.text(),
    {
        clone_chars(&self.value)
    }

    /// The current character count.
    pub fn len(&self) -> (r: usize)
        ensures
            r == self.text().len(),
    {
        self.value.len()
    }

    /// The current cursor offset.
    pub fn cursor(&self) -> (r: usize)
        ensures
            r == self.cursor_at(),
    {
        self.cursor
    }

    /// Moves the cursor one character left, stopping at the start.
    pub fn move_left(&mut self)
        requires
            old(self).wf(),
        ensures
            final(self).wf(),
            final(self).text() == old(self).text(),
            final(self).cursor_at() == if old(self).cursor_at() > 0 {
                old(self).cursor_at() - 1
            } else {
                0int
            },
    {
        if self.cursor > 0 {
            self.cursor = self.cursor - 1;
        }
    }

    /// Moves the cursor one character right, stopping at the end.
    pub fn move_right(&mut self)
        requires
            old(self).wf(),
        ensures
            final(self).wf(),
            final(self).text() == old(self).text(),
            final(self).cursor_at() == if old(self).cursor_at() < old(self).text().len() {
                old(self).cursor_at() + 1
            } else {
                old(self).text().len() as int
            },
    {
        if self.cursor < self.value.len() {
            self.cursor = self.cursor + 1;
        }
    }

    /// Moves the cursor to the start of the line.
    pub fn move_to_line_start(&mut self)
        requires
            old(self).wf(),
        ensures
            final(self).wf(),
            final(self).text() == old(self).text(),
            final(self).cursor_at() == 0,
    {
        self.cursor = 0;
    }

    /// Moves the cursor to the end of the line.
    pub fn move_to_line_end(&mut self)
        requires
            old(self).wf(),
        ensures
            final(self).wf(),
            final(self).text() == old(self).text(),
            final(self).cursor_at() == old(self).text().len(),
    {
        self.cursor = self.value.len();
    }

    /// Moves the cursor left over any whitespace, then to the start of the
    /// word before it (or the buffer start).
    pub fn move_word_left(&mut self)
        requires
            old(self).wf(),
        ensures
            final(self).wf(),
            final(self).text() == old(self).text(),
            final(self).cursor_at() == word_left_pos(old(self).text(), old(self).cursor_at()),
    {
        let ghost s = self.value@;
        let ghost c0 = self.cursor as int;
        while self.cursor > 0 && is_space(self.value[self.cursor - 1])
            invariant
                self.value@ == s,
                0 <= self.cursor <= s.len(),
                skip_spaces_back(s, self.cursor as int) == skip_spaces_back(s, c0),
            decreases self.cursor,
        {
            self.cursor = self.cursor - 1;
        }
        proof {
            assert(skip_spaces_back(s, self.cursor as int) == self.cursor as int);
        }
        let ghost c1 = self.cursor as int;
        while self.cursor > 0 && !is_space(self.value[self.cursor - 1])
            invariant
                self.value@ == s,
                0 <= self.cursor <= s.len(),
                skip_word_back(s, self.cursor as int) == skip_word_back(s, c1),
            decreases self.cursor,
        {
            self.cursor = self.cursor - 1;
        }
        proof {
            assert(skip_word_back(s, self.cursor as int) == self.cursor as int);
        }
    }

    /// Moves the cursor right over the rest of the current word, then over
    /// the whitespace run after it (or to the buffer end).
    pub fn move_word_right(&mut self)
        requires
            old(self).wf(),
        ensures
            final(self).wf(),
            final(self).text() == old(self).text(),
            final(self).cursor_at() == word_right_pos(old(self).text(), old(self).cursor_at()),
    {
        let ghost s = self.value@;
        let ghost c0 = self.cursor as int;
        while self.cursor < self.value.len() && !is_space(self.value[self.cursor])
            invariant
                self.value@ == s,
                0 <= self.cursor <= s.len(),
                skip_word_fwd(s, self.cursor as int) == skip_word_fwd(s, c0),
            decreases s.len() - self.cursor,
        {
            self.cursor = self.cursor + 1;
        }
        proof {
            assert(skip_word_fwd(s, self.cursor as int) == self.cursor as int);
        }
        let ghost c1 = self.cursor as int;
        while self.cursor < self.value.len() && is_space(self.value[self.cursor])
            invariant
                self.value@ == s,
                0 <= self.cursor <= s.len(),
                skip_spaces_fwd(s, self.cursor as int) == skip_spaces_fwd(s, c1),
            decreases s.len() - self.cursor,
        {
            self.cursor = self.cursor + 1;
        }
        proof {
            assert(skip_spaces_fwd(s, self.cursor as int) == self.cursor as int);
        }
    }

    /// Backspace: removes the character left of the cursor, if any, and moves
    /// the cursor onto the removed position.
    pub fn delete_prev(&mut self)
        requires
            old(self).wf(),
        ensures
            final(self).wf(),
            old(self).cursor_at() > 0 ==> final(self).text() == old(self).text().remove(
                old(self).cursor_at() - 1,
            ) && final(self).cursor_at() == old(self).cursor_at() - 1,
            old(self).cursor_at() == 0 ==> final(self).text() == old(self).text()
                && final(self).cursor_at() == 0,
    {
        if self.cursor > 0 {
            self.cursor = self.cursor - 1;
            self.value.remove(self.cursor);
        }
    }

    /// Delete: removes the character right of the cursor, if any; the cursor
    /// stays put.
    pub fn delete_next(&mut self)
        requires
            old(self).wf(),
        ensures
            final(self).wf(),
            final(self).cursor_at() == old(self).cursor_at(),
            old(self).cursor_at() < old(self).text().len() ==> final(self).text() == old(
                self,
            ).text().remove(old(self).cursor_at()),
            old(self).cursor_at() >= old(self).text().len() ==> final(self).text() == old(
                self,
            ).text(),
    {
        if self.cursor < self.value.len() {
            self.value.remove(self.cursor);
        }
    }

    /// Inserts one character at the cursor and moves the cursor past it.
    pub fn insert_char(&mut self, c: char)
        requires
            old(self).wf(),
        ensures
            final(self).wf(),
            final(self).text() == old(self).text().insert(old(self).cursor_at(), c),
            final(self).cursor_at() == old(self).cursor_at() + 1,
    {
        self.value.insert(self.cursor, c);
        let n = self.value.len();
        assert(self.cursor < n);
        self.cursor = self.cursor + 1;
    }

    /// Inserts a string of characters at the cursor and moves the cursor past
    /// them.
    pub fn insert_text(&mut self, s: &Vec<char>)
        requires
            old(self).wf(),
        ensures
            final(self).wf(),
            final(self).text() =~= old(self).text().take(old(self).cursor_at()) + s@ + old(
                self,
            ).text().skip(old(self).cursor_at()),
            final(self).cursor_at() == old(self).cursor_at() + s@.len(),
    {
        let ghost t0 = self.value@;
        let ghost c0 = self.cursor as int;
        let mut i: usize = 0;
        while i < s.len()
            invariant
                0 <= i <= s@.len(),
                self.cursor as int == c0 + i,
                self.value@ =~= t0.take(c0) + s@.take(i as int) + t0.skip(c0),
                0 <= c0 <= t0.len(),
            decreases s@.len() - i,
        {
            self.value.insert(self.cursor, s[i]);
            let n = self.value.len();
            assert(self.cursor < n);
            self.cursor = self.cursor + 1;
            proof {
                assert(s@.take(i + 1) =~= s@.take(i as int).push(s@[i as int]));
                assert(self.value@ =~= t0.take(c0) + s@.take(i + 1) + t0.skip(c0));
            }
            i += 1;
        }
        proof {
            assert(s@.take(s@.len() as int) =~= s@);
        }
    }

    /// Replaces the whole text; the cursor moves to the end of the new text,
    /// as it does when the value is changed from outside the keyboard path.
    pub fn replace_value(&mut self, value: Vec<char>)
        ensures
            final(self).wf(),
            final(self).text() == value@,
            final(self).cursor_at() == value@.len(),
    {
        self.cursor = value.len();
        self.value = value;
    }

    /// Clamps the cursor back into `0 ..= character count`.
    pub fn clamp_cursor(&mut self)
        ensures
            final(self).wf(),
            final(self).text() == old(self).text(),
            final(self).cursor_at() == if old(self).cursor_at() <= old(self).text().len() {
                old(self).cursor_at()
            } else {
                old(self).text().len() as int
            },
    {
        if self.cursor > self.value.len() {
            self.cursor = self.value.len();
        }
    }

    /// Empties the buffer, returning the old text; the cursor returns to 0.
    pub fn take_value(&mut self) -> (r: Vec<char>)
        ensures
            final(self).wf(),
            r@ == old(self).text(),
            final(self).text() == Seq::<char>::empty(),
            final(self).cursor_at() == 0,
    {
        self.cursor = 0;
        let mut taken: Vec<char> = Vec::new();
        core::mem::swap(&mut taken, &mut self.value);
        taken
    }

    /// Applies one editing operation.
    pub fn apply(&mut self, op: &EditOp)
        requires
            old(self).wf(),
        ensures
            final(self).wf(),
            final(self).text() == edit_result(old(self).text(), old(self).cursor_at(), *op).0,
            final(self).cursor_at() == edit_result(old(self).text(), old(self).cursor_at(), *op).1,
    {
        proof {
            lemma_word_positions_in_bounds(self.value@, self.cursor as int);
        }
        match op {
            EditOp::CharLeft => self.move_left(),
            EditOp::CharRight => self.move_right(),
            EditOp::LineStart => self.move_to_line_start(),
            EditOp::LineEnd => self.move_to_line_end(),
            EditOp::WordLeft => self.move_word_left(),
            EditOp::WordRight => self.move_word_right(),
            EditOp::DeletePrev => self.delete_prev(),
            EditOp::DeleteNext => self.delete_next(),
            EditOp::Insert(c) => self.insert_char(*c),
        }
    }
}

fn clone_chars(v: &Vec<char>) -> (r: Vec<char>)
    ensures
        r@ == v@,
{
    let mut r: Vec<char> = Vec::new();
    let mut i: usize = 0;
    while i < v.len()
        invariant
            0 <= i <= v@.len(),
            r@ =~= v@.take(i as int),
        decreases v@.len() - i,
    {
        r.push(v[i]);
        proof {
            assert(r@ =~= v@.take(i + 1));
        }
        i += 1;
    }
    proof {
        assert(v@.take(v@.len() as int) =~= v@);
    }
    r
}

/// How many bytes `c` takes in UTF-8.
pub open spec fn char_utf8_len_spec(c: char) -> int {
    if (c as u32) < 0x80 {
        1
    } else if (c as u32) < 0x800 {
        2
    } else if (c as u32) < 0x10000 {
        3
    } else {
        4
    }
}

/// How many bytes the characters of `s` take in UTF-8.
pub open spec fn utf8_len_spec(s: Seq<char>) -> int
    decreases s.len(),
{
    if s.len() == 0 {
        0
    } else {
        utf8_len_spec(s.drop_last()) + char_utf8_len_spec(s.last())
    }
}

/// How many bytes `c` takes in UTF-8.
pub fn char_utf8_len(c: char) -> (r: usize)
    ensures
        r == char_utf8_len_spec(c),
{
    let n = c as u32;
    if n < 0x80 {
        1
    } else if n < 0x800 {
        2
    } else if n < 0x10000 {
        3
    } else {
        4
    }
}

/// The byte offset of character `char_pos` in the UTF-8 encoding of `input`,
/// or the total byte length when `char_pos` is at or past the end.
pub fn byte_pos(input: &Vec<char>, char_pos: usize) -> (r: usize)
    requires
        input@.len() <= usize::MAX / 4,
    ensures
        char_pos <= input@.len() ==> r == utf8_len_spec(input@.take(char_pos as int)),
        char_pos > input@.len() ==> r == utf8_len_spec(input@),
{
    let stop = if char_pos < input.len() {
        char_pos
    } else {
        input.len()
    };
    let mut r: usize = 0;
    let mut i: usize = 0;
    while i < stop
        invariant
            0 <= i <= stop <= input@.len(),
            input@.len() <= usize::MAX / 4,
            r == utf8_len_spec(input@.take(i as int)),
            r <= 4 * i,
        decreases stop - i,
    {
        proof {
            assert(input@.take(i + 1).drop_last() =~= input@.take(i as int));
            assert(input@.take(i + 1).last() == input@[i as int]);
        }
        r = r + char_utf8_len(input[i]);
        i += 1;
    }
    proof {
        if char_pos >= input@.len() {
            assert(input@.take(input@.len() as int) =~= input@);
        }
    }
    r
}

/// A copy of `input` with the character at offset `index` removed; `input`
/// unchanged when `index` is out of range.
pub fn remove_char_at(input: &Vec<char>, index: usize) -> (r: Vec<char>)
    ensures
        index < input@.len() ==> r@ == input@.remove(index as int),
        index >= input@.len() ==> r@ == input@,
{
    let mut r: Vec<char> = Vec::new();
    let mut i: usize = 0;
    while i < input.len()
        invariant
            0 <= i <= input@.len(),
            index < input@.len() && i > index ==> r@ =~= input@.take(i as int).remove(
                index as int,
            ),
            i <= index ==> r@ =~= input@.take(i as int),
        decreases input@.len() - i,
    {
        if i != index {
            r.push(input[i]);
        }
        proof {
            assert(input@.take(i + 1).drop_last() =~= input@.take(i as int));
            if index < input@.len() && i >= index {
                assert(r@ =~= input@.take(i + 1).remove(index as int));
            }
        }
        i += 1;
    }
    proof {
        assert(input@.take(input@.len() as int) =~= input@);
    }
    r
}

/// The text and cursor after replaying `ops`, oldest first.
pub open spec fn replay(text: Seq<char>, cursor: int, ops: Seq<EditOp>) -> (Seq<char>, int)
    decreases ops.len(),
{
    if ops.len() == 0 {
        (text, cursor)
    } else {
        let mid = replay(text, cursor, ops.drop_last());
        edit_result(mid.0, mid.1, ops.last())
    }
}

/// One editing operation keeps the cursor inside the text bounds.
pub proof fn lemma_edit_preserves_bounds(text: Seq<char>, cursor: int, op: EditOp)
    requires
        0 <= cursor <= text.len(),
    ensures
        0 <= edit_result(text, cursor, op).1 <= edit_result(text, cursor, op).0.len(),
{
    lemma_word_positions_in_bounds(text, cursor);
}

/// Law: after any sequence of editing and navigation operations, the cursor
/// still sits between 0 and the character count of the buffer.
pub proof fn lemma_cursor_in_bounds(text: Seq<char>, cursor: int, ops: Seq<EditOp>)
    requires
        0 <= cursor <= text.len(),
    ensures
        0 <= replay(text, cursor, ops).1 <= replay(text, cursor, ops).0.len(),
    decreases ops.len(),
{
    if ops.len() > 0 {
        lemma_cursor_in_bounds(text, cursor, ops.drop_last());
        let mid = replay(text, cursor, ops.drop_last());
        lemma_edit_preserves_bounds(mid.0, mid.1, ops.last());
    }
}

} // verus!

//! A single-line text input: its characters and a cursor.

use vstd::prelude::*;
use crate::strutil;

verus! {

/// The input's characters, in order, with the cursor as a character
/// index (0 ..= length).
#[derive(Debug, Clone, PartialEq, Eq)]
pub struct TextInputState {
    pub chars: Vec<char>,
    pub cursor: usize,
}

/// Where the cursor lands after skipping whitespace leftward.
pub open spec fn spec_skip_spaces_left(s: Seq<char>, c: int) -> int
    decreases c,
{
    if c > 0 && 0 < c <= s.len() && strutil::spec_is_space(s[c - 1]) {
        spec_skip_spaces_left(s, c - 1)
    } else {
        c
    }
}

/// Where the cursor lands after skipping word characters leftward.
pub open spec fn spec_skip_word_left(s: Seq<char>, c: int) -> int
    decreases c,
{
    if c > 0 && 0 < c <= s.len() && !strutil::spec_is_space(s[c - 1]) {
        spec_skip_word_left(s, c - 1)
    } else {
        c
    }
}

/// Where the cursor lands after skipping whitespace rightward.
pub open spec fn spec_skip_spaces_right(s: Seq<char>, c: int) -> int
    decreases s.len() - c,
{
    if 0 <= c < s.len() && strutil::spec_is_space(s[c]) {
        spec_skip_spaces_right(s, c + 1)
    } else {
        c
    }
}

/// Where the cursor lands after skipping word characters rightward.
pub open spec fn spec_skip_word_right(s: Seq<char>, c: int) -> int
    decreases s.len() - c,
{
    if 0 <= c < s.len() && !strutil::spec_is_space(s[c]) {
        spec_skip_word_right(s, c + 1)
    } else {
        c
    }
}

impl TextInputState {
    /// The cursor points into or just past the text.
    pub open spec fn wf(self) -> bool {
        self.cursor <= self.chars@.len()
    }

    /// An empty input.
    pub fn new() -> (r: TextInputState)
        ensures
            r.wf(),
            r.chars@.len() == 0,
            r.cursor == 0,
    {
        TextInputState { chars: Vec::new(), cursor: 0 }
    }

    /// The input's text as an owned string.
    pub fn value_string(&self) -> (r: String)
        ensures
            r@ == self.chars@,
    {
        strutil::chars_to_string(&self.chars)
    }

    /// The number of characters.
    pub fn len(&self) -> (r: usize)
        ensures
            r == self.chars@.len(),
    {
        self.chars.len()
    }

    /// Whether the input is empty.
    pub fn is_empty(&self) -> (r: bool)
        ensures
            r == (self.chars@.len() == 0),
    {
        self.chars.len() == 0
    }

    /// Inserts a character at the cursor and advances past it.
    pub fn insert_char(&mut self, c: char)
        requires
            old(self).wf(),
        ensures
            final(self).wf(),
            final(self).chars@ == old(self).chars@.insert(old(self).cursor as int, c),
            final(self).cursor == old(self).cursor + 1,
    {
        self.chars.insert(self.cursor, c);
        let n = self.chars.len();
        proof {
            assert(self.cursor < n);
        }
        self.cursor = self.cursor + 1;
    }

    /// Deletes the character before the cursor, if any.
    pub fn delete_char(&mut self)
        requires
            old(self).wf(),
        ensures
            final(self).wf(),
            old(self).cursor == 0 ==> *final(self) == *old(self),
            old(self).cursor > 0 ==> final(self).chars@ == old(self).chars@.remove(
                old(self).cursor - 1,
            ) && final(self).cursor == old(self).cursor - 1,
    {
        if self.cursor > 0 {
            let _ = self.chars.remove(self.cursor - 1);
            self.cursor = self.cursor - 1;
        }
    }

    /// Deletes the character at the cursor, if any.
    pub fn delete_forward(&mut self)
        requires
            old(self).wf(),
        ensures
            final(self).wf(),
            old(self).cursor >= old(self).chars@.len() ==> *final(self) == *old(self),
            old(self).cursor < old(self).chars@.len() ==> final(self).chars@ == old(
                self,
            ).chars@.remove(old(self).cursor as int) && final(self).cursor == old(self).cursor,
    {
        if self.cursor < self.chars.len() {
            let _ = self.chars.remove(self.cursor);
        }
    }

    /// Moves the cursor one character left, stopping at the start.
    pub fn move_left(&mut self)
        requires
            old(self).wf(),
        ensures
            final(self).wf(),
            final(self).chars@ == old(self).chars@,
            final(self).cursor == if old(self).cursor > 0 {
                (old(self).cursor - 1) as usize
            } else {
                0usize
            },
    {
        if self.cursor > 0 {
            self.cursor = self.cursor - 1;
        }
    }

    /// Moves the cursor one character right, stopping at the end.
    pub fn move_right(&mut self)
        requires
            old(self).wf(),
        ensures
            final(self).wf(),
            final(self).chars@ == old(self).chars@,
            final(self).cursor == if old(self).cursor < old(self).chars@.len() {
                (old(self).cursor + 1) as usize
            } else {
                old(self).cursor
            },
    {
        if self.cursor < self.chars.len() {
            self.cursor = self.cursor + 1;
        }
    }

    /// Moves the cursor to the start.
    pub fn move_start(&mut self)
        ensures
            final(self).wf(),
            final(self).chars@ == old(self).chars@,
            final(self).cursor == 0,
    {
        self.cursor = 0;
    }

    /// Moves the cursor to the end.
    pub fn move_end(&mut self)
        ensures
            final(self).wf(),
            final(self).chars@ == old(self).chars@,
            final(self).cursor == old(self).chars@.len(),
    {
        self.cursor = self.chars.len();
    }

    /// Moves the cursor left over whitespace, then over one word.
    pub fn move_word_left(&mut self)
        requires
            old(self).wf(),
        ensures
            final(self).wf(),
            final(self).chars@ == old(self).chars@,
            final(self).cursor == spec_skip_word_left(
                old(self).chars@,
                spec_skip_spaces_left(old(self).chars@, old(self).cursor as int),
            ),
    {
        while self.cursor > 0 && strutil::is_space_char(self.chars[self.cursor - 1])
            invariant
                self.wf(),
                self.chars@ == old(self).chars@,
                spec_skip_spaces_left(self.chars@, self.cursor as int) == spec_skip_spaces_left(
                    old(self).chars@,
                    old(self).cursor as int,
                ),
            decreases self.cursor,
        {
            self.cursor = self.cursor - 1;
        }
        proof {
            assert(self.cursor as int == spec_skip_spaces_left(
                old(self).chars@,
                old(self).cursor as int,
            ));
        }
        let ghost mid = self.cursor as int;
        while self.cursor > 0 && !strutil::is_space_char(self.chars[self.cursor - 1])
            invariant
                self.wf(),
                self.chars@ == old(self).chars@,
                spec_skip_word_left(self.chars@, self.cursor as int) == spec_skip_word_left(
                    self.chars@,
                    mid,
                ),
            decreases self.cursor,
        {
            self.cursor = self.cursor - 1;
        }
    }

    /// Moves the cursor right over whitespace, then over one word.
    pub fn move_word_right(&mut self)
        requires
            old(self).wf(),
        ensures
            final(self).wf(),
            final(self).chars@ == old(self).chars@,
            final(self).cursor == spec_skip_word_right(
                old(self).chars@,
                spec_skip_spaces_right(old(self).chars@, old(self).cursor as int),
            ),
    {
        while self.cursor < self.chars.len() && strutil::is_space_char(self.chars[self.cursor])
            invariant
                self.wf(),
                self.chars@ == old(self).chars@,
                spec_skip_spaces_right(self.chars@, self.cursor as int) == spec_skip_spaces_right(
                    old(self).chars@,
                    old(self).cursor as int,
                ),
            decreases self.chars@.len() - self.cursor,
        {
            self.cursor = self.cursor + 1;
        }
        let ghost mid = self.cursor as int;
        while self.cursor < self.chars.len() && !strutil::is_space_char(self.chars[self.cursor])
            invariant
                self.wf(),
                self.chars@ == old(self).chars@,
                spec_skip_word_right(self.chars@, self.cursor as int) == spec_skip_word_right(
                    self.chars@,
                    mid,
                ),
            decreases self.chars@.len() - self.cursor,
        {
            self.cursor = self.cursor + 1;
        }
    }

    /// Deletes everything before the cursor.
    pub fn delete_to_start(&mut self)
        requires
            old(self).wf(),
        ensures
            final(self).wf(),
            final(self).chars@ == old(self).chars@.skip(old(self).cursor as int),
            final(self).cursor == 0,
    {
        let mut rest: Vec<char> = Vec::new();
        let mut i: usize = self.cursor;
        while i < self.chars.len()
            invariant
                old(self).cursor <= i <= self.chars@.len(),
                self.chars@ == old(self).chars@,
                rest@ == old(self).chars@.subrange(old(self).cursor as int, i as int),
            decreases self.chars@.len() - i,
        {
            rest.push(self.chars[i]);
            i = i + 1;
            proof {
                assert(rest@ =~= old(self).chars@.subrange(old(self).cursor as int, i as int));
            }
        }
        proof {
            assert(rest@ =~= old(self).chars@.skip(old(self).cursor as int));
        }
        self.chars = rest;
        self.cursor = 0;
    }

    /// Deletes everything at and after the cursor.
    pub fn delete_to_end(&mut self)
        requires
            old(self).wf(),
        ensures
            final(self).wf(),
            final(self).chars@ == old(self).chars@.take(old(self).cursor as int),
            final(self).cursor == old(self).cursor,
    {
        let mut kept: Vec<char> = Vec::new();
        let mut i: usize = 0;
        while i < self.cursor
            invariant
                i <= old(self).cursor <= self.chars@.len(),
                self.chars@ == old(self).chars@,
                self.cursor == old(self).cursor,
                kept@ == old(self).chars@.take(i as int),
            decreases self.cursor - i,
        {
            kept.push(self.chars[i]);
            i = i + 1;
            proof {
                assert(kept@ =~= old(self).chars@.take(i as int));
            }
        }
        self.chars = kept;
    }

    /// Deletes the word before the cursor (whitespace, then word
    /// characters), like a shell's word erase.
    pub fn delete_word(&mut self)
        requires
            old(self).wf(),
        ensures
            final(self).wf(),
            final(self).cursor == spec_skip_word_left(
                old(self).chars@,
                spec_skip_spaces_left(old(self).chars@, old(self).cursor as int),
            ),
            final(self).chars@ == old(self).chars@.take(final(self).cursor as int) + old(
                self,
            ).chars@.skip(old(self).cursor as int),
    {
        let ghost orig = *old(self);
        let end = self.cursor;
        proof {
            lemma_skip_spaces_left_le(self.chars@, self.cursor as int);
            lemma_skip_word_left_le(
                self.chars@,
                spec_skip_spaces_left(self.chars@, self.cursor as int),
            );
        }
        self.move_word_left();
        let start = self.cursor;
        let mut kept: Vec<char> = Vec::new();
        let mut i: usize = 0;
        while i < start
            invariant
                i <= start <= end <= self.chars@.len(),
                self.chars@ == orig.chars@,
                kept@ == orig.chars@.take(i as int),
            decreases start - i,
        {
            kept.push(self.chars[i]);
            i = i + 1;
            proof {
                assert(kept@ =~= orig.chars@.take(i as int));
            }
        }
        let mut j: usize = end;
        while j < self.chars.len()
            invariant
                end <= j <= self.chars@.len(),
                self.chars@ == orig.chars@,
                start <= end,
                kept@ == orig.chars@.take(start as int) + orig.chars@.subrange(
                    end as int,
                    j as int,
                ),
            decreases self.chars@.len() - j,
        {
            kept.push(self.chars[j]);
            j = j + 1;
            proof {
                assert(kept@ =~= orig.chars@.take(start as int) + orig.chars@.subrange(
                    end as int,
                    j as int,
                ));
            }
        }
        proof {
            assert(kept@ =~= orig.chars@.take(start as int) + orig.chars@.skip(end as int));
        }
        self.chars = kept;
        self.cursor = start;
    }

    /// Empties the input.
    pub fn clear(&mut self)
        ensures
            final(self).wf(),
            final(self).chars@.len() == 0,
            final(self).cursor == 0,
    {
        self.chars.clear();
        self.cursor = 0;
    }
}

proof fn lemma_skip_spaces_left_le(s: Seq<char>, c: int)
    requires
        0 <= c <= s.len(),
    ensures
        0 <= spec_skip_spaces_left(s, c) <= c,
    decreases c,
{
    if c > 0 && strutil::spec_is_space(s[c - 1]) {
        lemma_skip_spaces_left_le(s, c - 1);
    }
}

proof fn lemma_skip_word_left_le(s: Seq<char>, c: int)
    requires
        0 <= c <= s.len(),
    ensures
        0 <= spec_skip_word_left(s, c) <= c,
    decreases c,
{
    if c > 0 && !strutil::spec_is_space(s[c - 1]) {
        lemma_skip_word_left_le(s, c - 1);
    }
}

} // verus!

//! Line editor of the terminal interface, with word motions, kill commands
//! and a command history that keeps credentials out.

use vstd::prelude::*;

use crate::command::strings_view;
use crate::editor::{
    backspace_spec, delete_spec, delete_word_forward_spec, empty_line, end_spec,
    history_down_spec, history_up_spec, home_spec, insert_spec, is_word_char_spec,
    kill_to_end_spec, kill_to_start_spec, kill_word_backward_spec, lemma_word_bounds,
    move_left_spec, move_right_spec, move_word_left_spec, move_word_right_spec, show_entry,
    skip_back, skip_forward, submit_private_spec, word_left, word_right, LineView,
};
use crate::text::{char_is_alphanumeric, chars_of, lowercase_chars, starts_with_str, string_from_chars};

verus! {

/// Simple line editor with cursor movement and command history.
pub struct InputLine {
    buffer: Vec<char>,
    cursor: usize,
    history: Vec<String>,
    history_index: Option<usize>,
    /// Saved current input when browsing history.
    saved_current: String,
}

/// Letters, digits and the underscore make up words.
pub fn is_word_char(character: char) -> (r: bool)
    ensures
        r == is_word_char_spec(character),
{
    char_is_alphanumeric(character) || character == '_'
}

impl View for InputLine {
    type V = LineView;

    closed spec fn view(&self) -> LineView {
        LineView {
            buffer: self.buffer@,
            cursor: self.cursor as nat,
            history: strings_view(self.history@),
            history_index: match self.history_index {
                Some(i) => Some(i as nat),
                None => None,
            },
            saved_current: self.saved_current@,
        }
    }
}

impl InputLine {
    /// The editor state is valid.
    pub open spec fn wf(&self) -> bool {
        self@.valid()
    }

    /// An empty editor.
    pub fn new() -> (r: Self)
        ensures
            r@ == empty_line(),
            r.wf(),
    {
        let r = InputLine {
            buffer: Vec::new(),
            cursor: 0,
            history: Vec::new(),
            history_index: None,
            saved_current: String::new(),
        };
        proof {
            assert(strings_view(r.history@) =~= Seq::<Seq<char>>::empty());
        }
        r
    }

    /// Inserts a character at the cursor.
    pub fn insert(&mut self, ch: char)
        requires
            old(self).wf(),
            old(self)@.cursor < usize::MAX,
        ensures
            final(self)@ == insert_spec(old(self)@, ch),
            final(self).wf(),
    {
        self.buffer.insert(self.cursor, ch);
        self.cursor = self.cursor + 1;
    }

    /// Removes the character before the cursor.
    pub fn backspace(&mut self)
        requires
            old(self).wf(),
        ensures
            final(self)@ == backspace_spec(old(self)@),
            final(self).wf(),
    {
        if self.cursor > 0 {
            self.cursor = self.cursor - 1;
            self.buffer.remove(self.cursor);
        }
    }

    /// Removes the character under the cursor.
    pub fn delete(&mut self)
        requires
            old(self).wf(),
        ensures
            final(self)@ == delete_spec(old(self)@),
            final(self).wf(),
    {
        if self.cursor < self.buffer.len() {
            self.buffer.remove(self.cursor);
        }
    }

    /// Moves the cursor one character left.
    pub fn move_left(&mut self)
        requires
            old(self).wf(),
        ensures
            final(self)@ == move_left_spec(old(self)@),
            final(self).wf(),
    {
        if self.cursor > 0 {
            self.cursor = self.cursor - 1;
        }
    }

    /// Moves the cursor one character right.
    pub fn move_right(&mut self)
        requires
            old(self).wf(),
        ensures
            final(self)@ == move_right_spec(old(self)@),
            final(self).wf(),
    {
        if self.cursor < self.buffer.len() {
            self.cursor = self.cursor + 1;
        }
    }

    /// Moves the cursor to the start of the line.
    pub fn home(&mut self)
        requires
            old(self).wf(),
        ensures
            final(self)@ == home_spec(old(self)@),
            final(self).wf(),
    {
        self.cursor = 0;
    }

    /// Moves the cursor to the end of the line.
    pub fn end(&mut self)
        requires
            old(self).wf(),
        ensures
            final(self)@ == end_spec(old(self)@),
            final(self).wf(),
    {
        self.cursor = self.buffer.len();
    }

    /// The position reached from `from` by moving left over separators,
    /// then over a word.
    fn word_left_of(&self, from: usize) -> (r: usize)
        requires
            from <= self.buffer@.len(),
        ensures
            r == word_left(self.buffer@, from as nat),
    {
        let mut c = from;
        while c > 0 && !is_word_char(self.buffer[c - 1])
            invariant
                c <= from <= self.buffer@.len(),
                skip_back(self.buffer@, c as nat, false) == skip_back(
                    self.buffer@,
                    from as nat,
                    false,
                ),
            decreases c,
        {
            c = c - 1;
        }
        let ghost mid = c;
        while c > 0 && is_word_char(self.buffer[c - 1])
            invariant
                c <= mid <= self.buffer@.len(),
                mid == skip_back(self.buffer@, from as nat, false),
                skip_back(self.buffer@, c as nat, true) == skip_back(
                    self.buffer@,
                    mid as nat,
                    true,
                ),
            decreases c,
        {
            c = c - 1;
        }
        c
    }

    /// The position reached from `from` by moving right over a word, then
    /// over separators.
    fn word_right_of(&self, from: usize) -> (r: usize)
        requires
            from <= self.buffer@.len(),
        ensures
            r == word_right(self.buffer@, from as nat),
    {
        let length = self.buffer.len();
        let mut c = from;
        while c < length && is_word_char(self.buffer[c])
            invariant
                length == self.buffer@.len(),
                from <= c <= length,
                skip_forward(self.buffer@, c as nat, true) == skip_forward(
                    self.buffer@,
                    from as nat,
                    true,
                ),
            decreases length - c,
        {
            c = c + 1;
        }
        let ghost mid = c;
        while c < length && !is_word_char(self.buffer[c])
            invariant
                length == self.buffer@.len(),
                mid <= c <= length,
                mid == skip_forward(self.buffer@, from as nat, true),
                skip_forward(self.buffer@, c as nat, false) == skip_forward(
                    self.buffer@,
                    mid as nat,
                    false,
                ),
            decreases length - c,
        {
            c = c + 1;
        }
        c
    }

    /// Moves the cursor to the start of the previous word.
    pub fn move_word_left(&mut self)
        requires
            old(self).wf(),
        ensures
            final(self)@ == move_word_left_spec(old(self)@),
            final(self).wf(),
    {
        proof {
            lemma_word_bounds(self.buffer@, self.cursor as nat);
        }
        self.cursor = self.word_left_of(self.cursor);
    }

    /// Moves the cursor to the start of the next word.
    pub fn move_word_right(&mut self)
        requires
            old(self).wf(),
        ensures
            final(self)@ == move_word_right_spec(old(self)@),
            final(self).wf(),
    {
        proof {
            lemma_word_bounds(self.buffer@, self.cursor as nat);
        }
        self.cursor = self.word_right_of(self.cursor);
    }

    /// Removes everything from the cursor to the end of the line.
    pub fn kill_to_end(&mut self)
        requires
            old(self).wf(),
        ensures
            final(self)@ == kill_to_end_spec(old(self)@),
            final(self).wf(),
    {
        self.buffer.truncate(self.cursor);
    }

    /// Removes everything before the cursor.
    pub fn kill_to_start(&mut self)
        requires
            old(self).wf(),
        ensures
            final(self)@ == kill_to_start_spec(old(self)@),
            final(self).wf(),
    {
        let rest = self.buffer.split_off(self.cursor);
        self.buffer = rest;
        self.cursor = 0;
    }

    /// Removes the word before the cursor, with the separators after it.
    pub fn kill_word_backward(&mut self)
        requires
            old(self).wf(),
        ensures
            final(self)@ == kill_word_backward_spec(old(self)@),
            final(self).wf(),
    {
        proof {
            lemma_word_bounds(self.buffer@, self.cursor as nat);
        }
        let original = self.cursor;
        let target = self.word_left_of(original);
        let mut tail = self.buffer.split_off(original);
        self.buffer.truncate(target);
        self.buffer.append(&mut tail);
        self.cursor = target;
        proof {
            assert(self.buffer@ =~= old(self).buffer@.take(target as int) + old(self).buffer@.skip(
                original as int,
            ));
        }
    }

    /// Removes the rest of the current word and the separators after it.
    pub fn delete_word_forward(&mut self)
        requires
            old(self).wf(),
        ensures
            final(self)@ == delete_word_forward_spec(old(self)@),
            final(self).wf(),
    {
        proof {
            lemma_word_bounds(self.buffer@, self.cursor as nat);
        }
        let start = self.cursor;
        let end = self.word_right_of(start);
        let mut tail = self.buffer.split_off(end);
        self.buffer.truncate(start);
        self.buffer.append(&mut tail);
        proof {
            assert(self.buffer@ =~= old(self).buffer@.take(start as int) + old(self).buffer@.skip(
                end as int,
            ));
        }
    }

    /// Shows history entry `i`, cursor at its end.
    fn show_entry(&mut self, i: usize)
        requires
            old(self).wf(),
            i < old(self).history@.len(),
        ensures
            final(self)@ == show_entry(old(self)@, i as nat),
            final(self).wf(),
    {
        let entry = chars_of(self.history[i].as_str());
        self.cursor = 0;
        self.buffer = entry;
        self.cursor = self.buffer.len();
        self.history_index = Some(i);
    }

    /// Steps back in the command history.
    pub fn history_up(&mut self)
        requires
            old(self).wf(),
        ensures
            final(self)@ == history_up_spec(old(self)@),
            final(self).wf(),
    {
        if self.history.len() == 0 {
            return ;
        }
        match self.history_index {
            None => {
                self.saved_current = self.content();
                let last = self.history.len() - 1;
                self.show_entry(last);
            },
            Some(i) => {
                if i == 0 {
                    return ;
                }
                self.show_entry(i - 1);
            },
        }
    }

    /// Steps forward in the command history.
    pub fn history_down(&mut self)
        requires
            old(self).wf(),
        ensures
            final(self)@ == history_down_spec(old(self)@),
            final(self).wf(),
    {
        match self.history_index {
            None => {},
            Some(i) => {
                let n = self.history.len();
                assert(i < n);
                if i + 1 >= n {
                    self.history_index = None;
                    self.cursor = 0;
                    self.buffer = chars_of(self.saved_current.as_str());
                    self.cursor = self.buffer.len();
                } else {
                    self.show_entry(i + 1);
                }
            },
        }
    }

    /// Submits the current input: returns it and clears the editor. Lines
    /// that carry credentials (`/login`, `/register`) are kept out of the
    /// history.
    pub fn submit(&mut self) -> (text: String)
        requires
            old(self).wf(),
        ensures
            text@ == old(self)@.buffer,
            final(self)@ == submit_private_spec(old(self)@),
            final(self).wf(),
    {
        let text = self.content();
        if self.buffer.len() > 0 {
            let lower = lowercase_chars(self.buffer.as_slice());
            let has_credentials = starts_with_str(lower.as_slice(), "/login ")
                || starts_with_str(lower.as_slice(), "/register ");
            if !has_credentials {
                self.history.push(string_from_chars(self.buffer.as_slice()));
            }
        }
        self.buffer.clear();
        self.cursor = 0;
        self.history_index = None;
        self.saved_current = String::new();
        proof {
            assert(strings_view(self.history@) =~= submit_private_spec(old(self)@).history);
        }
        text
    }

    /// The current input.
    pub fn content(&self) -> (r: String)
        ensures
            r@ == self@.buffer,
    {
        string_from_chars(self.buffer.as_slice())
    }

    /// The cursor position, in characters.
    pub fn cursor_position(&self) -> (r: usize)
        ensures
            r == self@.cursor,
    {
        self.cursor
    }

    /// Whether the line is empty.
    pub fn is_empty(&self) -> (r: bool)
        ensures
            r == (self@.buffer.len() == 0),
    {
        self.buffer.len() == 0
    }
}

} // verus!

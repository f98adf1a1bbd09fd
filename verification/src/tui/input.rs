//! Line editor of the interactive client, with cursor movement and a
//! command history.

use vstd::prelude::*;

use crate::command::strings_view;
use crate::editor::{
    backspace_spec, delete_spec, empty_line, end_spec, history_down_spec, history_up_spec,
    home_spec, insert_spec, move_left_spec, move_right_spec, show_entry, submit_spec, LineView,
};
use crate::text::{chars_of, string_from_chars};

verus! {

/// Simple line editor with cursor movement and command history.
pub struct InputLine {
    buffer: Vec<char>,
    cursor: usize,
    history: Vec<String>,
    history_index: Option<usize>,
    /// Saved current input when browsing history.
    saved_current: String,
}

impl View for InputLine {
    type V = LineView;

    closed spec fn view(&self) -> LineView {
        LineView {
            buffer: self.buffer@,
            cursor: self.cursor as nat,
            history: strings_view(self.history@),
            history_index: match self.history_index {
                Some(i) => Some(i as nat),
                None => None,
            },
            saved_current: self.saved_current@,
        }
    }
}

impl InputLine {
    /// The editor state is valid.
    pub open spec fn wf(&self) -> bool {
        self@.valid()
    }

    /// An empty editor.
    pub fn new() -> (r: Self)
        ensures
            r@ == empty_line(),
            r.wf(),
    {
        let r = InputLine {
            buffer: Vec::new(),
            cursor: 0,
            history: Vec::new(),
            history_index: None,
            saved_current: String::new(),
        };
        proof {
            assert(strings_view(r.history@) =~= Seq::<Seq<char>>::empty());
        }
        r
    }

    /// Inserts a character at the cursor.
    pub fn insert(&mut self, ch: char)
        requires
            old(self).wf(),
            old(self)@.cursor < usize::MAX,
        ensures
            final(self)@ == insert_spec(old(self)@, ch),
            final(self).wf(),
    {
        self.buffer.insert(self.cursor, ch);
        self.cursor = self.cursor + 1;
    }

    /// Removes the character before the cursor.
    pub fn backspace(&mut self)
        requires
            old(self).wf(),
        ensures
            final(self)@ == backspace_spec(old(self)@),
            final(self).wf(),
    {
        if self.cursor > 0 {
            self.cursor = self.cursor - 1;
            self.buffer.remove(self.cursor);
        }
    }

    /// Removes the character under the cursor.
    pub fn delete(&mut self)
        requires
            old(self).wf(),
        ensures
            final(self)@ == delete_spec(old(self)@),
            final(self).wf(),
    {
        if self.cursor < self.buffer.len() {
            self.buffer.remove(self.cursor);
        }
    }

    /// Moves the cursor one character left.
    pub fn move_left(&mut self)
        requires
            old(self).wf(),
        ensures
            final(self)@ == move_left_spec(old(self)@),
            final(self).wf(),
    {
        if self.cursor > 0 {
            self.cursor = self.cursor - 1;
        }
    }

    /// Moves the cursor one character right.
    pub fn move_right(&mut self)
        requires
            old(self).wf(),
        ensures
            final(self)@ == move_right_spec(old(self)@),
            final(self).wf(),
    {
        if self.cursor < self.buffer.len() {
            self.cursor = self.cursor + 1;
        }
    }

    /// Moves the cursor to the start of the line.
    pub fn home(&mut self)
        requires
            old(self).wf(),
        ensures
            final(self)@ == home_spec(old(self)@),
            final(self).wf(),
    {
        self.cursor = 0;
    }

    /// Moves the cursor to the end of the line.
    pub fn end(&mut self)
        requires
            old(self).wf(),
        ensures
            final(self)@ == end_spec(old(self)@),
            final(self).wf(),
    {
        self.cursor = self.buffer.len();
    }

    /// Shows history entry `i`, cursor at its end.
    fn show_entry(&mut self, i: usize)
        requires
            old(self).wf(),
            i < old(self).history@.len(),
        ensures
            final(self)@ == show_entry(old(self)@, i as nat),
            final(self).wf(),
    {
        let entry = chars_of(self.history[i].as_str());
        self.cursor = 0;
        self.buffer = entry;
        self.cursor = self.buffer.len();
        self.history_index = Some(i);
    }

    /// Steps back in the command history.
    pub fn history_up(&mut self)
        requires
            old(self).wf(),
        ensures
            final(self)@ == history_up_spec(old(self)@),
            final(self).wf(),
    {
        if self.history.len() == 0 {
            return ;
        }
        match self.history_index {
            None => {
                self.saved_current = self.content();
                let last = self.history.len() - 1;
                self.show_entry(last);
            },
            Some(i) => {
                if i == 0 {
                    return ;
                }
                self.show_entry(i - 1);
            },
        }
    }

    /// Steps forward in the command history.
    pub fn history_down(&mut self)
        requires
            old(self).wf(),
        ensures
            final(self)@ == history_down_spec(old(self)@),
            final(self).wf(),
    {
        match self.history_index {
            None => {},
            Some(i) => {
                let n = self.history.len();
                assert(i < n);
                if i + 1 >= n {
                    self.history_index = None;
                    self.cursor = 0;
                    self.buffer = chars_of(self.saved_current.as_str());
                    self.cursor = self.buffer.len();
                } else {
                    self.show_entry(i + 1);
                }
            },
        }
    }

    /// Submits the current input: returns it, adds it to the history when it
    /// is not empty, and clears the editor.
    pub fn submit(&mut self) -> (text: String)
        requires
            old(self).wf(),
        ensures
            text@ == old(self)@.buffer,
            final(self)@ == submit_spec(old(self)@),
            final(self).wf(),
    {
        let text = self.content();
        if self.buffer.len() > 0 {
            self.history.push(string_from_chars(self.buffer.as_slice()));
        }
        self.buffer.clear();
        self.cursor = 0;
        self.history_index = None;
        self.saved_current = String::new();
        proof {
            assert(strings_view(self.history@) =~= submit_spec(old(self)@).history);
        }
        text
    }

    /// The current input.
    pub fn content(&self) -> (r: String)
        ensures
            r@ == self@.buffer,
    {
        string_from_chars(self.buffer.as_slice())
    }

    /// The cursor position, in characters.
    pub fn cursor_position(&self) -> (r: usize)
        ensures
            r == self@.cursor,
    {
        self.cursor
    }

    /// Whether the line is empty.
    pub fn is_empty(&self) -> (r: bool)
        ensures
            r == (self@.buffer.len() == 0),
    {
        self.buffer.len() == 0
    }
}

} // verus!

//! The model of a single-line editor with a cursor and a command history:
//! the state it is in, and what each editing operation does to it. Both line
//! editors of the crate are views onto this model.

use vstd::prelude::*;

use crate::text::{spec_char_is_alphanumeric, spec_to_lowercase, starts_with_spec};

verus! {

/// The abstract state of a line editor.
pub struct LineView {
    /// The characters of the line being edited.
    pub buffer: Seq<char>,
    /// The cursor, as the number of characters before it.
    pub cursor: nat,
    /// Submitted lines, oldest first.
    pub history: Seq<Seq<char>>,
    /// The history entry shown while browsing, if any.
    pub history_index: Option<nat>,
    /// The line that was being edited when browsing began.
    pub saved_current: Seq<char>,
}

impl LineView {
    /// The cursor lies within the line, and a browsed entry exists.
    pub open spec fn valid(self) -> bool {
        &&& self.cursor <= self.buffer.len()
        &&& match self.history_index {
            Some(i) => i < self.history.len(),
            None => true,
        }
    }
}

/// A fresh editor: empty line, cursor at the start, no history.
pub open spec fn empty_line() -> LineView {
    LineView {
        buffer: Seq::empty(),
        cursor: 0,
        history: Seq::empty(),
        history_index: None,
        saved_current: Seq::empty(),
    }
}

/// Letters, digits and the underscore make up words.
pub open spec fn is_word_char_spec(c: char) -> bool {
    spec_char_is_alphanumeric(c) || c == '_'
}

/// From position `i`, moves left over the characters that are (`word`) or are
/// not (`!word`) word characters.
pub open spec fn skip_back(buf: Seq<char>, i: nat, word: bool) -> nat
    decreases i,
{
    if 0 < i <= buf.len() && is_word_char_spec(buf[i - 1]) == word {
        skip_back(buf, (i - 1) as nat, word)
    } else {
        i
    }
}

/// From position `i`, moves right over the characters that are (`word`) or
/// are not (`!word`) word characters.
pub open spec fn skip_forward(buf: Seq<char>, i: nat, word: bool) -> nat
    decreases buf.len() - i,
{
    if i < buf.len() && is_word_char_spec(buf[i as int]) == word {
        skip_forward(buf, i + 1, word)
    } else {
        i
    }
}

/// Start of the word before position `i`: back over separators, then over
/// the word.
pub open spec fn word_left(buf: Seq<char>, i: nat) -> nat {
    skip_back(buf, skip_back(buf, i, false), true)
}

/// Start of the next word after position `i`: forward over the rest of the
/// current word, then over separators.
pub open spec fn word_right(buf: Seq<char>, i: nat) -> nat {
    skip_forward(buf, skip_forward(buf, i, true), false)
}

/// `skip_back` stays within `0..=i`, and every character it passes over has
/// the kind it skips.
pub proof fn lemma_skip_back(buf: Seq<char>, i: nat, word: bool)
    requires
        i <= buf.len(),
    ensures
        skip_back(buf, i, word) <= i,
        forall|k: int|
            skip_back(buf, i, word) <= k < i ==> is_word_char_spec(#[trigger] buf[k]) == word,
        skip_back(buf, i, word) > 0 ==> is_word_char_spec(buf[skip_back(buf, i, word) - 1])
            != word,
    decreases i,
{
    if 0 < i && is_word_char_spec(buf[i - 1]) == word {
        lemma_skip_back(buf, (i - 1) as nat, word);
    }
}

/// `skip_forward` stays within `i..=len`, and every character it passes over
/// has the kind it skips.
pub proof fn lemma_skip_forward(buf: Seq<char>, i: nat, word: bool)
    requires
        i <= buf.len(),
    ensures
        i <= skip_forward(buf, i, word) <= buf.len(),
        forall|k: int|
            i <= k < skip_forward(buf, i, word) ==> is_word_char_spec(#[trigger] buf[k])
                == word,
        skip_forward(buf, i, word) < buf.len() ==> is_word_char_spec(
            buf[skip_forward(buf, i, word) as int],
        ) != word,
    decreases buf.len() - i,
{
    if i < buf.len() && is_word_char_spec(buf[i as int]) == word {
        lemma_skip_forward(buf, i + 1, word);
    }
}

/// Both word targets stay within the line, on their side of the cursor.
pub proof fn lemma_word_bounds(buf: Seq<char>, i: nat)
    requires
        i <= buf.len(),
    ensures
        word_left(buf, i) <= i,
        i <= word_right(buf, i) <= buf.len(),
{
    lemma_skip_back(buf, i, false);
    lemma_skip_back(buf, skip_back(buf, i, false), true);
    lemma_skip_forward(buf, i, true);
    lemma_skip_forward(buf, skip_forward(buf, i, true), false);
}

/// Inserts `c` at the cursor and moves the cursor past it.
pub open spec fn insert_spec(v: LineView, c: char) -> LineView {
    LineView { buffer: v.buffer.insert(v.cursor as int, c), cursor: v.cursor + 1, ..v }
}

/// Removes the character before the cursor, if any.
pub open spec fn backspace_spec(v: LineView) -> LineView {
    if v.cursor > 0 {
        LineView {
            buffer: v.buffer.remove(v.cursor - 1),
            cursor: (v.cursor - 1) as nat,
            ..v
        }
    } else {
        v
    }
}

/// Removes the character under the cursor, if any.
pub open spec fn delete_spec(v: LineView) -> LineView {
    if v.cursor < v.buffer.len() {
        LineView { buffer: v.buffer.remove(v.cursor as int), ..v }
    } else {
        v
    }
}

/// Moves the cursor one character left, stopping at the start.
pub open spec fn move_left_spec(v: LineView) -> LineView {
    if v.cursor > 0 {
        LineView { cursor: (v.cursor - 1) as nat, ..v }
    } else {
        v
    }
}

/// Moves the cursor one character right, stopping at the end.
pub open spec fn move_right_spec(v: LineView) -> LineView {
    if v.cursor < v.buffer.len() {
        LineView { cursor: v.cursor + 1, ..v }
    } else {
        v
    }
}

/// Moves the cursor to the start of the line.
pub open spec fn home_spec(v: LineView) -> LineView {
    LineView { cursor: 0, ..v }
}

/// Moves the cursor to the end of the line.
pub open spec fn end_spec(v: LineView) -> LineView {
    LineView { cursor: v.buffer.len(), ..v }
}

/// Moves the cursor to the start of the previous word.
pub open spec fn move_word_left_spec(v: LineView) -> LineView {
    LineView { cursor: word_left(v.buffer, v.cursor), ..v }
}

/// Moves the cursor to the start of the next word.
pub open spec fn move_word_right_spec(v: LineView) -> LineView {
    LineView { cursor: word_right(v.buffer, v.cursor), ..v }
}

/// Removes everything from the cursor to the end of the line.
pub open spec fn kill_to_end_spec(v: LineView) -> LineView {
    LineView { buffer: v.buffer.take(v.cursor as int), ..v }
}

/// Removes everything before the cursor; the cursor goes to the start.
pub open spec fn kill_to_start_spec(v: LineView) -> LineView {
    LineView { buffer: v.buffer.skip(v.cursor as int), cursor: 0, ..v }
}

/// Removes the word before the cursor together with the separators between
/// it and the cursor.
pub open spec fn kill_word_backward_spec(v: LineView) -> LineView {
    let t = word_left(v.buffer, v.cursor);
    LineView {
        buffer: v.buffer.take(t as int) + v.buffer.skip(v.cursor as int),
        cursor: t,
        ..v
    }
}

/// Removes the rest of the current word and the separators after it.
pub open spec fn delete_word_forward_spec(v: LineView) -> LineView {
    let e = word_right(v.buffer, v.cursor);
    LineView { buffer: v.buffer.take(v.cursor as int) + v.buffer.skip(e as int), ..v }
}

/// Shows the history entry `i`, cursor at its end.
pub open spec fn show_entry(v: LineView, i: nat) -> LineView {
    LineView {
        buffer: v.history[i as int],
        cursor: v.history[i as int].len(),
        history_index: Some(i),
        ..v
    }
}

/// Steps back in the history. The first step saves the line being edited
/// and shows the newest entry; at the oldest entry, or with no history,
/// nothing changes.
pub open spec fn history_up_spec(v: LineView) -> LineView {
    if v.history.len() == 0 {
        v
    } else {
        match v.history_index {
            None => show_entry(
                LineView { saved_current: v.buffer, ..v },
                (v.history.len() - 1) as nat,
            ),
            Some(i) => if i == 0 {
                v
            } else {
                show_entry(v, (i - 1) as nat)
            },
        }
    }
}

/// Steps forward in the history; past the newest entry, the saved line comes
/// back. When not browsing, nothing changes.
pub open spec fn history_down_spec(v: LineView) -> LineView {
    match v.history_index {
        None => v,
        Some(i) => if i + 1 >= v.history.len() {
            LineView {
                buffer: v.saved_current,
                cursor: v.saved_current.len(),
                history_index: None,
                ..v
            }
        } else {
            show_entry(v, i + 1)
        },
    }
}

/// After a submission: empty line, cursor at the start, not browsing, and
/// the given history.
pub open spec fn cleared(history: Seq<Seq<char>>) -> LineView {
    LineView {
        buffer: Seq::empty(),
        cursor: 0,
        history,
        history_index: None,
        saved_current: Seq::empty(),
    }
}

/// Submits the line: a non-empty line is added to the history, and the
/// editor is cleared.
pub open spec fn submit_spec(v: LineView) -> LineView {
    if v.buffer.len() > 0 {
        cleared(v.history.push(v.buffer))
    } else {
        cleared(v.history)
    }
}

/// A line that carries credentials: `/login ` or `/register ` at its start,
/// in any letter case.
pub open spec fn carries_credentials(line: Seq<char>) -> bool {
    let lower = spec_to_lowercase(line);
    starts_with_spec(lower, "/login "@) || starts_with_spec(lower, "/register "@)
}

/// Submits the line, keeping lines that carry credentials out of the
/// history.
pub open spec fn submit_private_spec(v: LineView) -> LineView {
    if v.buffer.len() > 0 && !carries_credentials(v.buffer) {
        cleared(v.history.push(v.buffer))
    } else {
        cleared(v.history)
    }
}

// ── Laws ──────────────────────────────────────────────────────────────

/// Every editing operation keeps the editor valid.
pub proof fn lemma_operations_keep_valid(v: LineView, c: char)
    requires
        v.valid(),
    ensures
        insert_spec(v, c).valid(),
        backspace_spec(v).valid(),
        delete_spec(v).valid(),
        move_left_spec(v).valid(),
        move_right_spec(v).valid(),
        home_spec(v).valid(),
        end_spec(v).valid(),
        move_word_left_spec(v).valid(),
        move_word_right_spec(v).valid(),
        kill_to_end_spec(v).valid(),
        kill_to_start_spec(v).valid(),
        kill_word_backward_spec(v).valid(),
        delete_word_forward_spec(v).valid(),
        history_up_spec(v).valid(),
        history_down_spec(v).valid(),
        submit_spec(v).valid(),
        submit_private_spec(v).valid(),
{
    lemma_word_bounds(v.buffer, v.cursor);
}

/// Typing a character and then erasing it with backspace gives back the
/// editor as it was.
pub proof fn lemma_insert_then_backspace(v: LineView, c: char)
    requires
        v.valid(),
    ensures
        backspace_spec(insert_spec(v, c)) == v,
{
    assert(v.buffer.insert(v.cursor as int, c).remove(v.cursor as int) =~= v.buffer);
}

/// Killing the word before the cursor removes exactly the characters that
/// moving a word left passes over, and leaves the cursor where that move
/// would.
pub proof fn lemma_kill_word_backward_matches_move(v: LineView)
    requires
        v.valid(),
    ensures
        kill_word_backward_spec(v).cursor == move_word_left_spec(v).cursor,
        kill_word_backward_spec(v).buffer == v.buffer.take(move_word_left_spec(v).cursor as int)
            + v.buffer.skip(v.cursor as int),
        kill_word_backward_spec(v).buffer.len() + (v.cursor - move_word_left_spec(v).cursor)
            == v.buffer.len(),
{
    lemma_word_bounds(v.buffer, v.cursor);
}

/// Deleting the next word removes exactly the characters that moving a word
/// right passes over, and leaves the cursor in place.
pub proof fn lemma_delete_word_forward_matches_move(v: LineView)
    requires
        v.valid(),
    ensures
        delete_word_forward_spec(v).cursor == v.cursor,
        delete_word_forward_spec(v).buffer == v.buffer.take(v.cursor as int) + v.buffer.skip(
            move_word_right_spec(v).cursor as int,
        ),
        delete_word_forward_spec(v).buffer.len() + (move_word_right_spec(v).cursor - v.cursor)
            == v.buffer.len(),
{
    lemma_word_bounds(v.buffer, v.cursor);
}

/// Killing to the start and killing to the end split the line at the cursor.
pub proof fn lemma_kills_split_line(v: LineView)
    requires
        v.valid(),
    ensures
        kill_to_end_spec(v).buffer + kill_to_start_spec(v).buffer == v.buffer,
{
    assert(v.buffer.take(v.cursor as int) + v.buffer.skip(v.cursor as int) =~= v.buffer);
}

/// A submitted line is the first one that stepping back in the history
/// shows.
pub proof fn lemma_submit_then_history_up(v: LineView)
    requires
        v.valid(),
        v.buffer.len() > 0,
    ensures
        history_up_spec(submit_spec(v)).buffer == v.buffer,
{
}

/// A submitted line without credentials is the first one that stepping back
/// in the history shows; one with credentials never enters the history.
pub proof fn lemma_submit_private_then_history_up(v: LineView)
    requires
        v.valid(),
    ensures
        v.buffer.len() > 0 && !carries_credentials(v.buffer) ==> history_up_spec(
            submit_private_spec(v),
        ).buffer == v.buffer,
        carries_credentials(v.buffer) ==> submit_private_spec(v).history == v.history,
{
}

/// Stepping back into the history and forward again restores the line that
/// was being edited, cursor at its end.
pub proof fn lemma_history_up_then_down(v: LineView)
    requires
        v.valid(),
        v.history_index is None,
        v.history.len() > 0,
    ensures
        history_down_spec(history_up_spec(v)).buffer == v.buffer,
        history_down_spec(history_up_spec(v)).cursor == v.buffer.len(),
        history_down_spec(history_up_spec(v)).history_index is None,
{
}

/// Browsing the history never changes it.
pub proof fn lemma_browsing_keeps_history(v: LineView)
    ensures
        history_up_spec(v).history == v.history,
        history_down_spec(v).history == v.history,
{
}

} // verus!

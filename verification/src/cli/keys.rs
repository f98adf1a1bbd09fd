//! What a key press does in the terminal interface: editing the input line,
//! scrolling, submitting a line, or quitting. Reading keys and drawing are
//! left to the caller.

use vstd::prelude::*;

use crate::cli::input::InputLine;
use crate::editor::{
    backspace_spec, delete_spec, end_spec, history_down_spec, history_up_spec, home_spec,
    insert_spec, move_left_spec, move_right_spec, submit_private_spec, LineView,
};

verus! {

/// The keys the interface reacts to.
pub enum Key {
    Char(char),
    Enter,
    Backspace,
    Delete,
    Left,
    Right,
    Home,
    End,
    Up,
    Down,
    PageUp,
    PageDown,
    /// Any other key.
    Other,
}

/// The modifier bit of the Shift key.
pub const MOD_SHIFT: u8 = 1;

/// The modifier bit of the Control key.
pub const MOD_CONTROL: u8 = 2;

/// Rows scrolled by one page key.
pub const SCROLL_STEP: usize = 10;

/// What the caller does after a key press.
pub enum KeyOutcome {
    /// Leave the interface.
    Quit,
    /// Run the submitted line.
    Submit(String),
    /// Redraw the input line.
    RedrawInput,
    /// Redraw the whole screen.
    RedrawAll,
    /// Nothing changed.
    Ignored,
}

/// The outcome of a key press, with the submitted text as characters.
pub enum OutcomeView {
    Quit,
    Submit(Seq<char>),
    RedrawInput,
    RedrawAll,
    Ignored,
}

/// The outcome as plain values.
pub open spec fn outcome_view(o: KeyOutcome) -> OutcomeView {
    match o {
        KeyOutcome::Quit => OutcomeView::Quit,
        KeyOutcome::Submit(s) => OutcomeView::Submit(s@),
        KeyOutcome::RedrawInput => OutcomeView::RedrawInput,
        KeyOutcome::RedrawAll => OutcomeView::RedrawAll,
        KeyOutcome::Ignored => OutcomeView::Ignored,
    }
}

/// Control-C or Control-D, with no other modifier, quits.
pub open spec fn is_quit_key(key: Key, modifiers: u8) -> bool {
    modifiers == MOD_CONTROL && (key matches Key::Char(c) && (c == 'c' || c == 'd'))
}

/// A key press: its outcome, the input line after it and the scroll offset
/// after it. Enter submits a non-empty line; the editing keys edit; the page
/// keys scroll by `SCROLL_STEP` rows, stopping at the ends; a character typed
/// with no modifier but Shift is inserted.
pub open spec fn key_spec(key: Key, modifiers: u8, line: LineView, scroll: usize) -> (
    OutcomeView,
    LineView,
    usize,
) {
    if is_quit_key(key, modifiers) {
        (OutcomeView::Quit, line, scroll)
    } else {
        match key {
            Key::Enter => if line.buffer.len() == 0 {
                (OutcomeView::Ignored, line, scroll)
            } else {
                (OutcomeView::Submit(line.buffer), submit_private_spec(line), scroll)
            },
            Key::Backspace => (OutcomeView::RedrawInput, backspace_spec(line), scroll),
            Key::Delete => (OutcomeView::RedrawInput, delete_spec(line), scroll),
            Key::Left => (OutcomeView::RedrawInput, move_left_spec(line), scroll),
            Key::Right => (OutcomeView::RedrawInput, move_right_spec(line), scroll),
            Key::Home => (OutcomeView::RedrawInput, home_spec(line), scroll),
            Key::End => (OutcomeView::RedrawInput, end_spec(line), scroll),
            Key::Up => (OutcomeView::RedrawInput, history_up_spec(line), scroll),
            Key::Down => (OutcomeView::RedrawInput, history_down_spec(line), scroll),
            Key::PageUp => (
                OutcomeView::RedrawAll,
                line,
                if scroll + SCROLL_STEP > usize::MAX {
                    usize::MAX
                } else {
                    (scroll + SCROLL_STEP) as usize
                },
            ),
            Key::PageDown => (
                OutcomeView::RedrawAll,
                line,
                if scroll < SCROLL_STEP {
                    0
                } else {
                    (scroll - SCROLL_STEP) as usize
                },
            ),
            Key::Char(c) => if modifiers == 0 || modifiers == MOD_SHIFT {
                (OutcomeView::RedrawInput, insert_spec(line, c), scroll)
            } else {
                (OutcomeView::Ignored, line, scroll)
            },
            Key::Other => (OutcomeView::Ignored, line, scroll),
        }
    }
}

/// Handles a key press.
pub fn handle_key(key: Key, modifiers: u8, input: &mut InputLine, scroll_offset: &mut usize) -> (r:
    KeyOutcome)
    requires
        old(input).wf(),
        old(input)@.cursor < usize::MAX,
    ensures
        final(input).wf(),
        outcome_view(r) == key_spec(key, modifiers, old(input)@, *old(scroll_offset)).0,
        final(input)@ == key_spec(key, modifiers, old(input)@, *old(scroll_offset)).1,
        *final(scroll_offset) == key_spec(key, modifiers, old(input)@, *old(scroll_offset)).2,
{
    if modifiers == MOD_CONTROL {
        if let Key::Char(c) = key {
            if c == 'c' || c == 'd' {
                return KeyOutcome::Quit;
            }
        }
    }
    match key {
        Key::Enter => {
            if input.is_empty() {
                KeyOutcome::Ignored
            } else {
                KeyOutcome::Submit(input.submit())
            }
        },
        Key::Backspace => {
            input.backspace();
            KeyOutcome::RedrawInput
        },
        Key::Delete => {
            input.delete();
            KeyOutcome::RedrawInput
        },
        Key::Left => {
            input.move_left();
            KeyOutcome::RedrawInput
        },
        Key::Right => {
            input.move_right();
            KeyOutcome::RedrawInput
        },
        Key::Home => {
            input.home();
            KeyOutcome::RedrawInput
        },
        Key::End => {
            input.end();
            KeyOutcome::RedrawInput
        },
        Key::Up => {
            input.history_up();
            KeyOutcome::RedrawInput
        },
        Key::Down => {
            input.history_down();
            KeyOutcome::RedrawInput
        },
        Key::PageUp => {
            *scroll_offset = scroll_offset.saturating_add(SCROLL_STEP);
            KeyOutcome::RedrawAll
        },
        Key::PageDown => {
            *scroll_offset = scroll_offset.saturating_sub(SCROLL_STEP);
            KeyOutcome::RedrawAll
        },
        Key::Char(c) => {
            if modifiers == 0 || modifiers == MOD_SHIFT {
                input.insert(c);
                KeyOutcome::RedrawInput
            } else {
                KeyOutcome::Ignored
            }
        },
        Key::Other => KeyOutcome::Ignored,
    }
}

/// Typing a character and then Backspace leaves the input line as it was.
pub proof fn lemma_type_then_erase(c: char, line: LineView, scroll: usize)
    requires
        line.valid(),
    ensures
        key_spec(Key::Backspace, 0, key_spec(Key::Char(c), 0, line, scroll).1, scroll).1 == line,
{
    crate::editor::lemma_insert_then_backspace(line, c);
}

/// Paging up and then down returns to the same place, away from the ends.
pub proof fn lemma_page_up_then_down(line: LineView, scroll: usize)
    requires
        scroll + SCROLL_STEP <= usize::MAX,
    ensures
        key_spec(Key::PageDown, 0, line, key_spec(Key::PageUp, 0, line, scroll).2).2 == scroll,
{
}

/// Up recalls the newest submitted line: when not browsing and the history
/// is not empty, the line shows the last history entry with the cursor at
/// its end, and the line being edited is kept to come back to; the history
/// itself and the scroll position do not change.
pub proof fn lemma_up_recalls_newest(modifiers: u8, line: LineView, scroll: usize)
    requires
        line.history_index is None,
        line.history.len() > 0,
    ensures
        ({
            let (o, after, sc) = key_spec(Key::Up, modifiers, line, scroll);
            &&& o == OutcomeView::RedrawInput
            &&& after.buffer == line.history.last()
            &&& after.cursor == line.history.last().len()
            &&& after.history == line.history
            &&& after.history_index == Some((line.history.len() - 1) as nat)
            &&& after.saved_current == line.buffer
            &&& sc == scroll
        }),
{
}

/// Down, after Up has recalled a history entry, brings back the line that
/// was being edited, cursor at its end, and leaves browsing.
pub proof fn lemma_up_then_down_restores(modifiers: u8, line: LineView, scroll: usize)
    requires
        line.history_index is None,
        line.history.len() > 0,
    ensures
        ({
            let after = key_spec(Key::Down, modifiers, key_spec(Key::Up, modifiers, line, scroll).1, scroll).1;
            &&& after.buffer == line.buffer
            &&& after.cursor == line.buffer.len()
            &&& after.history_index is None
            &&& after.history == line.history
        }),
{
}

} // verus!

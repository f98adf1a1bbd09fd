use conclave::cli::input::InputLine;
use conclave::cli::keys::{handle_key, Key, KeyOutcome, MOD_CONTROL, MOD_SHIFT};
use conclave::tui::input::InputLine as SimpleLine;

fn typed(text: &str) -> InputLine {
    let mut input = InputLine::new();
    for ch in text.chars() {
        input.insert(ch);
    }
    input
}

#[test]
fn insert_then_backspace_restores_line() {
    let mut input = typed("hello");
    input.move_left();
    input.move_left();
    let before = (input.content(), input.cursor_position());
    input.insert('x');
    assert_eq!(input.content(), "helxlo");
    input.backspace();
    assert_eq!((input.content(), input.cursor_position()), before);
}

#[test]
fn kill_word_backward_removes_what_move_word_left_skips() {
    let mut a = typed("alpha beta  gamma");
    let mut b = typed("alpha beta  gamma");
    a.move_word_left();
    b.kill_word_backward();
    assert_eq!(b.cursor_position(), a.cursor_position());
    assert_eq!(b.content(), "alpha beta  ");
}

#[test]
fn delete_word_forward_removes_what_move_word_right_skips() {
    let mut a = typed("one, two three");
    let mut b = typed("one, two three");
    a.home();
    b.home();
    a.move_word_right();
    b.delete_word_forward();
    assert_eq!(a.cursor_position(), 5);
    assert_eq!(b.content(), "two three");
    assert_eq!(b.cursor_position(), 0);
}

#[test]
fn kills_split_line_at_cursor() {
    let mut start = typed("abcdef");
    let mut end = typed("abcdef");
    for _ in 0..2 {
        start.move_left();
        end.move_left();
    }
    start.kill_to_start();
    end.kill_to_end();
    assert_eq!(format!("{}{}", end.content(), start.content()), "abcdef");
}

#[test]
fn history_up_then_down_restores_draft() {
    let mut input = typed("first");
    input.submit();
    for ch in "draft".chars() {
        input.insert(ch);
    }
    input.history_up();
    assert_eq!(input.content(), "first");
    input.history_down();
    assert_eq!(input.content(), "draft");
    assert_eq!(input.cursor_position(), 5);
}

#[test]
fn credentials_never_enter_history_in_any_case() {
    let mut input = typed("/LOGIN bob secret");
    assert_eq!(input.submit(), "/LOGIN bob secret");
    input.history_up();
    assert_eq!(input.content(), "");
    let mut input = typed("/Register bob secret");
    input.submit();
    input.history_up();
    assert_eq!(input.content(), "");
    let mut input = typed("/loginx bob");
    input.submit();
    input.history_up();
    assert_eq!(input.content(), "/loginx bob");
}

#[test]
fn history_stops_at_oldest_entry() {
    let mut input = typed("a");
    input.submit();
    input.insert('b');
    input.submit();
    input.history_up();
    assert_eq!(input.content(), "b");
    input.history_up();
    input.history_up();
    assert_eq!(input.content(), "a");
}

#[test]
fn simple_line_keeps_every_submission() {
    let mut input = SimpleLine::new();
    for ch in "/login bob pw".chars() {
        input.insert(ch);
    }
    assert_eq!(input.submit(), "/login bob pw");
    assert!(input.is_empty());
    input.history_up();
    assert_eq!(input.content(), "/login bob pw");
    input.history_down();
    assert_eq!(input.content(), "");
}

#[test]
fn simple_line_editing() {
    let mut input = SimpleLine::new();
    input.insert('a');
    input.insert('c');
    input.move_left();
    input.insert('b');
    assert_eq!(input.content(), "abc");
    input.home();
    input.delete();
    assert_eq!(input.content(), "bc");
    input.end();
    input.backspace();
    assert_eq!(input.content(), "b");
    assert_eq!(input.cursor_position(), 1);
    input.move_right();
    assert_eq!(input.cursor_position(), 1);
}

#[test]
fn keys_edit_and_submit() {
    let mut input = InputLine::new();
    let mut scroll = 0usize;
    assert!(matches!(handle_key(Key::Char('h'), 0, &mut input, &mut scroll), KeyOutcome::RedrawInput));
    assert!(matches!(handle_key(Key::Char('I'), MOD_SHIFT, &mut input, &mut scroll), KeyOutcome::RedrawInput));
    assert!(matches!(handle_key(Key::Char('x'), MOD_CONTROL | MOD_SHIFT, &mut input, &mut scroll), KeyOutcome::Ignored));
    assert_eq!(input.content(), "hI");
    assert!(matches!(handle_key(Key::Backspace, 0, &mut input, &mut scroll), KeyOutcome::RedrawInput));
    assert_eq!(input.content(), "h");
    match handle_key(Key::Enter, 0, &mut input, &mut scroll) {
        KeyOutcome::Submit(text) => assert_eq!(text, "h"),
        _ => panic!("expected a submitted line"),
    }
    assert!(matches!(handle_key(Key::Enter, 0, &mut input, &mut scroll), KeyOutcome::Ignored));
}

#[test]
fn keys_quit_and_scroll() {
    let mut input = InputLine::new();
    let mut scroll = 5usize;
    assert!(matches!(handle_key(Key::Char('c'), MOD_CONTROL, &mut input, &mut scroll), KeyOutcome::Quit));
    assert!(matches!(handle_key(Key::Char('d'), MOD_CONTROL, &mut input, &mut scroll), KeyOutcome::Quit));
    assert!(matches!(handle_key(Key::PageUp, 0, &mut input, &mut scroll), KeyOutcome::RedrawAll));
    assert_eq!(scroll, 15);
    handle_key(Key::PageDown, 0, &mut input, &mut scroll);
    handle_key(Key::PageDown, 0, &mut input, &mut scroll);
    assert_eq!(scroll, 0);
    let mut top = usize::MAX - 3;
    handle_key(Key::PageUp, 0, &mut input, &mut top);
    assert_eq!(top, usize::MAX);
    assert!(matches!(handle_key(Key::Other, 0, &mut input, &mut scroll), KeyOutcome::Ignored));
}

use std::collections::HashMap;

use conclave::cli::render::{rows_for_width, sanitize_for_terminal, visual_line_count};
use conclave::state::{DisplayMessage, RoomMember, VerificationStatus};

#[test]
fn test_sanitize_strips_escape_sequences() {
    assert_eq!(sanitize_for_terminal("\x1b[2Jcleared"), "[2Jcleared");
    assert_eq!(sanitize_for_terminal("\x1b[Hhome"), "[Hhome");
    assert_eq!(
        sanitize_for_terminal("\x1b[8mhidden\x1b[0m"),
        "[8mhidden[0m"
    );
    assert_eq!(
        sanitize_for_terminal("before\x1b[31mred\x1b[0mafter"),
        "before[31mred[0mafter"
    );
}

#[test]
fn test_sanitize_preserves_normal_text() {
    assert_eq!(sanitize_for_terminal("hello world"), "hello world");
    assert_eq!(sanitize_for_terminal("café résumé"), "café résumé");
    assert_eq!(sanitize_for_terminal("emoji 🎉🔒"), "emoji 🎉🔒");
    assert_eq!(sanitize_for_terminal("日本語テスト"), "日本語テスト");
    assert_eq!(sanitize_for_terminal("line1\nline2"), "line1\nline2");
}

#[test]
fn test_sanitize_strips_control_chars() {
    assert_eq!(sanitize_for_terminal("\x00null"), "null");
    assert_eq!(sanitize_for_terminal("\x07bell"), "bell");
    assert_eq!(sanitize_for_terminal("\x08backspace"), "backspace");
    assert_eq!(sanitize_for_terminal("\x7fdelete"), "delete");
    assert_eq!(sanitize_for_terminal("\x01\x02\x03"), "");
}

#[test]
fn test_rows_for_width() {
    assert_eq!(rows_for_width(0, 80), 1);
    assert_eq!(rows_for_width(40, 80), 1);
    assert_eq!(rows_for_width(80, 80), 1);
    assert_eq!(rows_for_width(81, 80), 2);
    assert_eq!(rows_for_width(160, 80), 2);
    assert_eq!(rows_for_width(161, 80), 3);
    assert_eq!(rows_for_width(50, 0), 1);
}

#[test]
fn test_visual_line_count_single_line() {
    let msg = DisplayMessage::system("hello");
    let members = vec![];
    // "[HH:MM] *** hello" = 12 + 5 = 17 chars, fits in 80 cols
    assert_eq!(
        visual_line_count(&msg, 80, &members, &std::collections::HashMap::new(), false),
        1
    );
}

#[test]
fn test_visual_line_count_multiline() {
    let msg = DisplayMessage::system("first\nsecond\nthird");
    let members = vec![];
    // 3 lines, each fits in 80 cols
    assert_eq!(
        visual_line_count(&msg, 80, &members, &std::collections::HashMap::new(), false),
        3
    );
}

#[test]
fn test_visual_line_count_wrapping() {
    let long = "a".repeat(100);
    let msg = DisplayMessage::system(&long);
    let members = vec![];
    // "[HH:MM] *** " (12) + 100 = 112 chars, ceil(112/80) = 2
    assert_eq!(
        visual_line_count(&msg, 80, &members, &std::collections::HashMap::new(), false),
        2
    );
}

#[test]
fn test_visual_line_count_empty_content() {
    let msg = DisplayMessage::system("");
    let members = vec![];
    // "[HH:MM] *** " = 12 chars, fits in 80 cols
    assert_eq!(
        visual_line_count(&msg, 80, &members, &std::collections::HashMap::new(), false),
        1
    );
}

#[test]
fn test_visual_line_count_trailing_newline() {
    let msg = DisplayMessage::system("hello\n");
    let members = vec![];
    // "hello" on line 1 (with prefix), "" on line 2 (no prefix, 0 width → 1 row)
    assert_eq!(
        visual_line_count(&msg, 80, &members, &std::collections::HashMap::new(), false),
        2
    );
}

#[test]
fn test_visual_line_count_continuation_no_prefix() {
    // Continuation lines have no prefix, so a 100-char continuation
    // wraps based on its own width, not prefix + width.
    let long = format!("short\n{}", "a".repeat(100));
    let msg = DisplayMessage::system(&long);
    let members = vec![];
    // Line 1: "[HH:MM] *** short" = 12 + 5 = 17, 1 row
    // Line 2: "aaa...a" = 100 chars (no prefix), ceil(100/80) = 2 rows
    assert_eq!(
        visual_line_count(&msg, 80, &members, &std::collections::HashMap::new(), false),
        3
    );
}

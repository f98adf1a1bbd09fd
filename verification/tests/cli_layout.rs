use std::collections::HashMap;

use conclave::cli::input::InputLine;
use conclave::cli::render::{
    display_width, input_cursor_position, input_line_count, message_prefix_width, username_color,
    verification_color, verification_indicator, visible_start, NickColor,
};
use conclave::state::{DisplayMessage, RoomMember, VerificationStatus, INDICATOR_COLOR_RISKY};

fn member(id: u128, name: &str, alias: Option<&str>) -> RoomMember {
    RoomMember {
        user_id: id,
        username: name.to_string(),
        alias: alias.map(|a| a.to_string()),
        role: "member".to_string(),
        signing_key_fingerprint: None,
    }
}

#[test]
fn indicators_follow_status() {
    let mut status = HashMap::new();
    status.insert(1u128, VerificationStatus::Changed);
    status.insert(2u128, VerificationStatus::Unverified);
    status.insert(3u128, VerificationStatus::Verified);
    status.insert(4u128, VerificationStatus::Unknown);
    assert_eq!(verification_indicator(Some(1), &status, false), "[!] ");
    assert_eq!(verification_indicator(Some(2), &status, false), "[?] ");
    assert_eq!(verification_indicator(Some(4), &status, false), "[?] ");
    assert_eq!(verification_indicator(Some(3), &status, false), "");
    assert_eq!(verification_indicator(Some(3), &status, true), "[\u{2713}] ");
    assert_eq!(verification_indicator(Some(9), &status, true), "");
    assert_eq!(verification_indicator(None, &status, true), "");
    assert_eq!(verification_color(Some(1), &status, false), Some(INDICATOR_COLOR_RISKY));
    assert_eq!(verification_color(Some(3), &status, false), None);
    assert_eq!(verification_color(None, &status, true), None);
}

#[test]
fn prefix_width_counts_indicator_and_sender() {
    let members = vec![member(7, "alice", Some("Al"))];
    let mut status = HashMap::new();
    status.insert(7u128, VerificationStatus::Changed);
    let msg = DisplayMessage::user(7, "alice", "hi", 10);
    // "[HH:MM] " + "[!] " + "<Al> "
    assert_eq!(message_prefix_width(&msg, &members, &status, false), 8 + 4 + 1 + 2 + 2);
    let sys = DisplayMessage::system("x");
    assert_eq!(message_prefix_width(&sys, &members, &status, false), 12);
    assert_eq!(display_width("日本語"), 3);
}

#[test]
fn input_area_height_and_cursor() {
    let mut input = InputLine::new();
    assert_eq!(input_line_count(&input), 1);
    for ch in "ab\ncde\nf".chars() {
        input.insert(ch);
    }
    assert_eq!(input_line_count(&input), 3);
    // Cursor at the end: line 2, column 1.
    assert_eq!(input_cursor_position(&input, 2, 3), (1, 2));
    // Same position with a two-row area: the row is clamped.
    assert_eq!(input_cursor_position(&input, 2, 2), (1, 1));
    input.home();
    assert_eq!(input_cursor_position(&input, 2, 3), (2, 0));
    for _ in 0..4 {
        input.move_right();
    }
    assert_eq!(input_cursor_position(&input, 2, 3), (1, 1));
    let mut tall = InputLine::new();
    for _ in 0..15 {
        tall.insert('\n');
    }
    assert_eq!(input_line_count(&tall), 10);
}

#[test]
fn visible_messages_fill_rows_from_the_bottom() {
    let counts = vec![3usize, 2, 1, 4];
    assert_eq!(visible_start(&counts, 4, 5), 2);
    assert_eq!(visible_start(&counts, 4, 7), 1);
    assert_eq!(visible_start(&counts, 4, 100), 0);
    assert_eq!(visible_start(&counts, 4, 2), 3);
    assert_eq!(visible_start(&counts, 2, 5), 0);
    assert_eq!(visible_start(&counts, 0, 5), 0);
}

#[test]
fn nick_colors_are_stable() {
    assert_eq!(username_color(0), NickColor::Red);
    assert_eq!(username_color(1), username_color(1));
    let expected = [
        NickColor::Red,
        NickColor::Green,
        NickColor::Yellow,
        NickColor::Blue,
        NickColor::Magenta,
        NickColor::Cyan,
        NickColor::DarkRed,
        NickColor::DarkGreen,
        NickColor::DarkYellow,
        NickColor::DarkBlue,
        NickColor::DarkMagenta,
        NickColor::DarkCyan,
    ];
    for id in 0u128..40 {
        let hash = (id as usize).wrapping_mul(2654435761);
        assert_eq!(username_color(id), expected[hash % 12]);
    }
}

use conclave::cli::commands::resolve_display_name;
use conclave::cli::input::InputLine;
use conclave::cli::render::{input_prompt, status_bar};
use conclave::cli::state::{AppState, InputMode, PasswordPromptPurpose, PasswordPromptStage};
use conclave::error::Error;
use conclave::operations::{record_decrypted, reset_summary, CommitInfo, DecryptedMessage, ProcessedMessage, RejoinOutcome, ResetResult};
use conclave::state::{
    local_cleanup_rule, message_from_row, message_row, CleanupRule, ConnectionStatus, DisplayMessage,
    Room, RoomMember, VerificationStatus, INDICATOR_COLOR_RISKY,
};
use conclave::tui::render::username_color as name_color;
use conclave::cli::render::NickColor;

fn member(id: u128, name: &str) -> RoomMember {
    RoomMember {
        user_id: id,
        username: name.to_string(),
        alias: None,
        role: "member".to_string(),
        signing_key_fingerprint: Some("ff".to_string()),
    }
}

fn state() -> AppState {
    let mut s = AppState::new();
    s.rooms.insert(
        1,
        Room {
            server_group_id: 1,
            group_name: "devs".to_string(),
            alias: None,
            members: vec![member(7, "alice"), member(8, "bob")],
            last_seen_seq: 0,
            last_read_seq: 0,
            message_expiry_seconds: -1,
        },
    );
    s
}

#[test]
fn status_bar_text_badge_and_padding() {
    let mut s = state();
    let bar = status_bar(&s);
    assert_eq!(bar.text, " [disconnected] no room | not logged in ");
    assert!(bar.badge.is_none());
    assert_eq!(bar.padding, 80 - bar.text.len());
    s.active_room = Some(1);
    s.connection_status = ConnectionStatus::Connected;
    s.username = Some("alice".to_string());
    s.verification_status.insert(8, VerificationStatus::Changed);
    let bar = status_bar(&s);
    assert_eq!(bar.text, " [connected] #devs (2) | alice ");
    assert_eq!(bar.badge, Some((INDICATOR_COLOR_RISKY, "[!]")));
    assert_eq!(bar.padding, 80 - bar.text.len() - 5);
    s.verification_status.insert(7, VerificationStatus::Verified);
    s.verification_status.insert(8, VerificationStatus::Verified);
    assert!(status_bar(&s).badge.is_none());
    s.show_verified_indicator = true;
    let bar = status_bar(&s);
    assert_eq!(bar.badge.map(|b| b.1), Some("\u{2713}"));
    assert_eq!(bar.padding, 80 - bar.text.len() - 3);
    s.terminal_cols = 5;
    assert_eq!(status_bar(&s).padding, 0);
}

#[test]
fn input_prompts() {
    let mut s = state();
    let mut input = InputLine::new();
    for ch in "pässword".chars() {
        input.insert(ch);
    }
    assert_eq!(input_prompt(&s, &input), ("> ".to_string(), "pässword".to_string()));
    s.active_room = Some(1);
    assert_eq!(input_prompt(&s, &input).0, "[#devs] ");
    s.input_mode = InputMode::PasswordPrompt {
        purpose: PasswordPromptPurpose::DeleteAccount,
        stage: PasswordPromptStage::New,
    };
    assert_eq!(input_prompt(&s, &input), ("Password: ".to_string(), "********".to_string()));
}

#[test]
fn names_across_rooms() {
    let s = state();
    assert_eq!(resolve_display_name(8, &s), "bob");
    assert_eq!(resolve_display_name(9, &s), format!("user#{}", uuid::Uuid::from_u128(9)));
}

#[test]
fn decrypted_messages_are_recorded() {
    let members = vec![member(7, "alice")];
    let mut out: Vec<ProcessedMessage> = Vec::new();
    record_decrypted(&Ok(DecryptedMessage::Application(b"hello".to_vec())), Some(7), 50, 3, 2, &members, &mut out);
    assert_eq!(out.len(), 1);
    assert_eq!(out[0].sender, "alice");
    assert_eq!(out[0].content, "hello");
    assert!(!out[0].is_system);
    record_decrypted(&Ok(DecryptedMessage::Application(vec![0x66, 0xff])), Some(9), 51, 4, 2, &members, &mut out);
    assert_eq!(out[1].content, "f\u{fffd}");
    assert_eq!(out[1].sender, format!("user#{}", uuid::Uuid::from_u128(9)));
    record_decrypted(&Ok(DecryptedMessage::NoContent), None, 52, 5, 2, &members, &mut out);
    assert_eq!(out.len(), 2);
    record_decrypted(&Err(Error::Mls("bad epoch".to_string())), None, 53, 6, 2, &members, &mut out);
    assert_eq!(out[2].content, "Failed to decrypt message (seq 6): MLS error: bad epoch");
    assert!(out[2].is_system);
    let commit = CommitInfo {
        members_added: vec!["carol".to_string()],
        members_removed: vec![],
        self_removed: false,
    };
    record_decrypted(&Ok(DecryptedMessage::Commit(commit)), None, 54, 7, 3, &members, &mut out);
    assert_eq!(out[3].content, "carol joined the group");
    let empty = CommitInfo { members_added: vec![], members_removed: vec![], self_removed: false };
    record_decrypted(&Ok(DecryptedMessage::Commit(empty)), None, 55, 8, 4, &members, &mut out);
    assert_eq!(out[4].content, "Group keys updated");
    assert_eq!(out[4].epoch, 4);
}

#[test]
fn reset_tally() {
    let mut r = ResetResult::start(3);
    r.record(1, RejoinOutcome::Rejoined("aa".to_string()));
    r.record(2, RejoinOutcome::JoinRefused(Error::Other("nope".to_string())));
    r.record(3, RejoinOutcome::NoGroupInfo(Error::Other("gone".to_string())));
    assert_eq!(r.rejoin_count, 1);
    assert_eq!(r.new_group_mapping.get(&1).map(|s| s.as_str()), Some("aa"));
    assert_eq!(r.errors[0], format!("Failed to rejoin {}: nope", uuid::Uuid::from_u128(2)));
    assert_eq!(r.errors[1], format!("Failed to get group info for {}: gone", uuid::Uuid::from_u128(3)));
    assert_eq!(reset_summary(&r), "Account reset complete. Rejoined 1/3 groups.");
}

#[test]
fn history_rows_round_trip() {
    let mut msg = DisplayMessage::user(0x1234, "alice", "hi", 77);
    msg.sequence_num = Some(5);
    let row = message_row(&msg);
    assert_eq!(row.sender_id, uuid::Uuid::from_u128(0x1234).to_string());
    assert_eq!(row.epoch, 0);
    let back = message_from_row(&row);
    assert_eq!(back.sender_id, Some(0x1234));
    assert_eq!(back.sequence_num, Some(5));
    assert_eq!(back.epoch, None);
    assert_eq!(back.content, "hi");
    let sys = message_from_row(&message_row(&DisplayMessage::system("x")));
    assert_eq!(sys.sender_id, None);
    assert!(sys.is_system);
}

#[test]
fn cleanup_rules() {
    assert_eq!(local_cleanup_rule(0, 1000), CleanupRule::AllUserMessages);
    assert_eq!(local_cleanup_rule(60, 1000), CleanupRule::OlderThan(940));
    assert_eq!(local_cleanup_rule(-1, 1000), CleanupRule::Keep);
}

#[test]
fn name_colors_follow_byte_hash() {
    let palette = [
        NickColor::Red,
        NickColor::Green,
        NickColor::Yellow,
        NickColor::Blue,
        NickColor::Magenta,
        NickColor::Cyan,
        NickColor::DarkRed,
        NickColor::DarkGreen,
        NickColor::DarkYellow,
        NickColor::DarkBlue,
        NickColor::DarkMagenta,
        NickColor::DarkCyan,
    ];
    for name in ["", "a", "alice", "Bob", "日本"] {
        let hash = name.bytes().fold(0usize, |acc, b| acc.wrapping_mul(31).wrapping_add(b as usize));
        assert_eq!(name_color(name), palette[hash % 12]);
    }
    assert_eq!(name_color("a"), palette[97 % 12]);
}

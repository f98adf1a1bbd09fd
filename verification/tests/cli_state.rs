use conclave::cli::state::{AppState, PasswordPromptPurpose, PasswordPromptStage};
use conclave::state::{DisplayMessage, Room, RoomMember};

fn make_room(id: u128, name: &str) -> Room {
    Room {
        server_group_id: id,
        group_name: name.to_string(),
        alias: None,
        members: vec![RoomMember {
            user_id: 1u128,
            username: "alice".to_string(),
            alias: None,
            role: "admin".to_string(),
            signing_key_fingerprint: None,
        }],
        last_seen_seq: 0,
        last_read_seq: 0,
        message_expiry_seconds: -1,
    }
}

#[test]
fn test_new_defaults() {
    let state = AppState::new();
    assert!(!state.logged_in);
    assert!(state.active_room.is_none());
    assert!(state.rooms.is_empty());
}

#[test]
fn test_active_messages_no_room() {
    let mut state = AppState::new();
    state.push_system_message(DisplayMessage::system("hello"));
    let msgs = state.active_messages();
    assert_eq!(msgs.len(), 1);
    assert_eq!(msgs[0].content, "hello");
}

#[test]
fn test_active_messages_with_room() {
    let mut state = AppState::new();
    let room_id = 1u128;
    let user_id = 1u128;
    state.active_room = Some(room_id);
    state.push_room_message(room_id, DisplayMessage::user(user_id, "alice", "hi", 100));
    let msgs = state.active_messages();
    assert_eq!(msgs.len(), 1);
    assert_eq!(msgs[0].content, "hi");
}

#[test]
fn test_active_messages_empty_room() {
    let mut state = AppState::new();
    state.active_room = Some(1u128);
    let msgs = state.active_messages();
    assert!(msgs.is_empty());
}

#[test]
fn test_resolve_room_exact() {
    let mut state = AppState::new();
    let id = 1u128;
    state.rooms.insert(id, make_room(id, "general"));
    assert!(state.resolve_room("general").is_some());
}

#[test]
fn test_resolve_room_case_insensitive() {
    let mut state = AppState::new();
    let id = 1u128;
    state.rooms.insert(id, make_room(id, "general"));
    assert!(state.resolve_room("GENERAL").is_some());
}

#[test]
fn test_resolve_room_prefix() {
    let mut state = AppState::new();
    let id = 1u128;
    state.rooms.insert(id, make_room(id, "general"));
    assert!(state.resolve_room("gen").is_some());
}

#[test]
fn test_resolve_room_by_id() {
    let mut state = AppState::new();
    let id = 42u128;
    state.rooms.insert(id, make_room(id, "general"));
    assert!(state.resolve_room(&uuid::Uuid::from_u128(id).to_string()).is_some());
}

#[test]
fn test_resolve_room_not_found() {
    let mut state = AppState::new();
    let id = 1u128;
    state.rooms.insert(id, make_room(id, "general"));
    assert!(state.resolve_room("xyz").is_none());
}

#[test]
fn test_push_room_message() {
    let mut state = AppState::new();
    let room_id = 1u128;
    let user_id = 1u128;
    state.push_room_message(room_id, DisplayMessage::user(user_id, "alice", "hi", 100));
    assert_eq!(state.room_messages[&room_id].len(), 1);
}

#[test]
fn test_push_system_message() {
    let mut state = AppState::new();
    state.push_system_message(DisplayMessage::system("joined"));
    assert_eq!(state.system_messages.len(), 1);
}

#[test]
fn test_active_room_info() {
    let mut state = AppState::new();
    let id = 1u128;
    state.active_room = Some(id);
    state.rooms.insert(id, make_room(id, "general"));
    assert!(state.active_room_info().is_some());
    assert_eq!(
        state.active_room_info().map(|r| r.display_name()),
        Some("general".to_string())
    );
}

#[test]
fn test_active_room_info_none() {
    let state = AppState::new();
    assert!(state.active_room_info().is_none());
}

#[test]
fn cli_state_test_display_message_user() {
    let msg = DisplayMessage::user(1u128, "alice", "hi", 123);
    assert!(!msg.is_system);
    assert_eq!(msg.sender, "alice");
    assert_eq!(msg.content, "hi");
    assert_eq!(msg.timestamp, 123);
}

#[test]
fn cli_state_test_display_message_system() {
    let msg = DisplayMessage::system("joined");
    assert!(msg.is_system);
    assert_eq!(msg.sender, "");
    assert_eq!(msg.content, "joined");
}

#[test]
fn test_resolve_room_empty_input() {
    let state = AppState::new();
    assert!(state.resolve_room("").is_none());
}

#[test]
fn test_resolve_room_uuid_group_name_vs_id() {
    let mut state = AppState::new();
    let id1 = 1u128;
    let id2 = 2u128;
    state.rooms.insert(id1, make_room(id1, "room-one"));
    // Use id1's string representation as the group name for id2
    state.rooms.insert(id2, make_room(id2, &uuid::Uuid::from_u128(id1).to_string()));

    // The UUID string matches group_name (server_group_id=id2) via exact name match,
    // which takes priority over the UUID ID fallback to server_group_id=id1.
    let resolved = state.resolve_room(&uuid::Uuid::from_u128(id1).to_string());
    assert!(resolved.is_some());
    assert_eq!(resolved.expect("room should resolve").server_group_id, id2);
}

#[test]
fn test_resolve_room_both_alias_and_group_name_searchable() {
    let mut state = AppState::new();
    let id = 1u128;
    let mut room = make_room(id, "general");
    room.alias = Some("My Chat".to_string());
    state.rooms.insert(id, room);

    assert!(state.resolve_room("My Chat").is_some());
    assert!(state.resolve_room("general").is_none());
}

#[test]
fn test_label_login_new() {
    let purpose = PasswordPromptPurpose::Login {
        server: "s".into(),
        username: "u".into(),
    };
    assert_eq!(PasswordPromptStage::New.label(&purpose), "Password: ");
}

#[test]
fn test_label_delete_account_new() {
    assert_eq!(
        PasswordPromptStage::New.label(&PasswordPromptPurpose::DeleteAccount),
        "Password: "
    );
}

#[test]
fn test_label_register_new() {
    let purpose = PasswordPromptPurpose::Register {
        server: "s".into(),
        username: "u".into(),
        token: None,
    };
    assert_eq!(PasswordPromptStage::New.label(&purpose), "New password: ");
}

#[test]
fn test_label_change_password_new() {
    assert_eq!(
        PasswordPromptStage::New.label(&PasswordPromptPurpose::ChangePassword),
        "New password: "
    );
}

#[test]
fn test_label_current() {
    assert_eq!(
        PasswordPromptStage::Current.label(&PasswordPromptPurpose::ChangePassword),
        "Current password: "
    );
}

#[test]
fn test_label_confirm() {
    assert_eq!(
        PasswordPromptStage::Confirm.label(&PasswordPromptPurpose::ChangePassword),
        "Confirm password: "
    );
}

#[test]
fn test_resolve_room_multiple_prefix_matches() {
    let mut state = AppState::new();
    let id1 = 1u128;
    let id2 = 2u128;
    state.rooms.insert(id1, make_room(id1, "general"));
    state.rooms.insert(id2, make_room(id2, "gen-admin"));

    let resolved = state.resolve_room("gen");
    assert!(resolved.is_some());
}

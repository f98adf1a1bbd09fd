use std::collections::HashMap;

use conclave::state::{
    has_expiring_rooms, remove_expired_messages, resolve_sender_name, room_trust_level,
    DisplayMessage, Room, RoomMember, RoomTrustLevel, VerificationStatus,
};

fn test_uuid(n: u128) -> u128 {
    n
}

#[test]
fn test_room_member_display_name_with_alias() {
    let member = RoomMember {
        user_id: test_uuid(1),
        username: "alice".into(),
        alias: Some("Alice W.".into()),
        role: "member".into(),
        signing_key_fingerprint: None,
    };
    assert_eq!(member.display_name(), "Alice W.");
}

#[test]
fn test_room_member_display_name_empty_alias() {
    let member = RoomMember {
        user_id: test_uuid(1),
        username: "alice".into(),
        alias: Some(String::new()),
        role: "member".into(),
        signing_key_fingerprint: None,
    };
    assert_eq!(member.display_name(), "alice");
}

#[test]
fn test_room_member_display_name_no_alias() {
    let member = RoomMember {
        user_id: test_uuid(1),
        username: "alice".into(),
        alias: None,
        role: "member".into(),
        signing_key_fingerprint: None,
    };
    assert_eq!(member.display_name(), "alice");
}

#[test]
fn test_room_display_name_alias_priority() {
    let room = Room {
        server_group_id: test_uuid(42),
        group_name: "devs".into(),
        alias: Some("Dev Team".into()),
        members: vec![],
        last_seen_seq: 0,
        last_read_seq: 0,
        message_expiry_seconds: -1,
    };
    assert_eq!(room.display_name(), "Dev Team");
}

#[test]
fn test_room_display_name_group_name_fallback() {
    let room = Room {
        server_group_id: test_uuid(42),
        group_name: "devs".into(),
        alias: None,
        members: vec![],
        last_seen_seq: 0,
        last_read_seq: 0,
        message_expiry_seconds: -1,
    };
    assert_eq!(room.display_name(), "devs");
}

#[test]
fn test_room_display_name_empty_alias_falls_through() {
    let room = Room {
        server_group_id: test_uuid(42),
        group_name: "devs".into(),
        alias: Some(String::new()),
        members: vec![],
        last_seen_seq: 0,
        last_read_seq: 0,
        message_expiry_seconds: -1,
    };
    assert_eq!(room.display_name(), "devs");
}

#[test]
fn state_test_display_message_user() {
    let msg = DisplayMessage::user(test_uuid(42), "alice", "hello", 1000);
    assert_eq!(msg.sender_id, Some(test_uuid(42)));
    assert_eq!(msg.sender, "alice");
    assert_eq!(msg.content, "hello");
    assert_eq!(msg.timestamp, 1000);
    assert!(!msg.is_system);
}

#[test]
fn state_test_display_message_system() {
    let msg = DisplayMessage::system("user joined");
    assert_eq!(msg.sender_id, None);
    assert!(msg.sender.is_empty());
    assert_eq!(msg.content, "user joined");
    assert!(msg.is_system);
    assert!(msg.timestamp > 0);
}

#[test]
fn test_resolve_sender_name_from_members() {
    let members = vec![
        RoomMember {
            user_id: test_uuid(1),
            username: "alice".into(),
            alias: Some("Alice W.".into()),
            role: "admin".into(),
            signing_key_fingerprint: None,
        },
        RoomMember {
            user_id: test_uuid(2),
            username: "bob".into(),
            alias: None,
            role: "member".into(),
            signing_key_fingerprint: None,
        },
    ];
    let msg = DisplayMessage::user(test_uuid(1), "old_name", "hi", 100);
    assert_eq!(resolve_sender_name(&msg, &members), "Alice W.");

    let msg2 = DisplayMessage::user(test_uuid(2), "old_name", "hi", 100);
    assert_eq!(resolve_sender_name(&msg2, &members), "bob");
}

#[test]
fn test_resolve_sender_name_fallback() {
    let msg = DisplayMessage::user(test_uuid(999), "fallback_name", "hi", 100);
    assert_eq!(resolve_sender_name(&msg, &[]), "fallback_name");
}

#[test]
fn test_resolve_sender_name_system_message() {
    let msg = DisplayMessage::system("joined");
    assert_eq!(resolve_sender_name(&msg, &[]), "");
}

fn make_room(group_id: u128, expiry: i64) -> Room {
    Room {
        server_group_id: test_uuid(group_id),
        group_name: format!("room{group_id}"),
        alias: None,
        members: vec![],
        last_seen_seq: 0,
        last_read_seq: 0,
        message_expiry_seconds: expiry,
    }
}

#[test]
fn test_has_expiring_rooms_none() {
    let mut rooms = std::collections::HashMap::new();
    rooms.insert(test_uuid(1), make_room(1, -1));
    rooms.insert(test_uuid(2), make_room(2, 0));
    assert!(!has_expiring_rooms(&rooms));
}

#[test]
fn test_has_expiring_rooms_some() {
    let mut rooms = std::collections::HashMap::new();
    rooms.insert(test_uuid(1), make_room(1, -1));
    rooms.insert(test_uuid(2), make_room(2, 60));
    assert!(has_expiring_rooms(&rooms));
}

#[test]
fn test_remove_expired_messages_removes_old() {
    let now = chrono::Utc::now().timestamp();
    let mut rooms = std::collections::HashMap::new();
    rooms.insert(test_uuid(1), make_room(1, 10));

    let mut room_messages = std::collections::HashMap::new();
    room_messages.insert(
        test_uuid(1),
        vec![
            DisplayMessage::user(test_uuid(1), "alice", "old", now - 20),
            DisplayMessage::system("old system msg"),
            DisplayMessage::user(test_uuid(1), "alice", "recent", now - 5),
            DisplayMessage::user(test_uuid(1), "alice", "new", now),
        ],
    );

    // Backdate the system message so it would be expired if not protected.
    room_messages.get_mut(&test_uuid(1)).unwrap()[1].timestamp = now - 20;

    let removed = remove_expired_messages(&rooms, &mut room_messages);
    assert!(removed);
    assert_eq!(room_messages[&test_uuid(1)].len(), 3);
    assert!(room_messages[&test_uuid(1)][0].is_system);
    assert_eq!(room_messages[&test_uuid(1)][0].content, "old system msg");
    assert_eq!(room_messages[&test_uuid(1)][1].content, "recent");
    assert_eq!(room_messages[&test_uuid(1)][2].content, "new");
}

#[test]
fn test_remove_expired_messages_preserves_system() {
    let now = chrono::Utc::now().timestamp();
    let mut rooms = std::collections::HashMap::new();
    rooms.insert(test_uuid(1), make_room(1, 10));

    let mut room_messages = std::collections::HashMap::new();
    let mut sys_msg = DisplayMessage::system("help output");
    sys_msg.timestamp = now - 100;
    room_messages.insert(test_uuid(1), vec![sys_msg]);

    let removed = remove_expired_messages(&rooms, &mut room_messages);
    assert!(!removed);
    assert_eq!(room_messages[&test_uuid(1)].len(), 1);
    assert!(room_messages[&test_uuid(1)][0].is_system);
}

#[test]
fn test_remove_expired_messages_skips_disabled() {
    let now = chrono::Utc::now().timestamp();
    let mut rooms = std::collections::HashMap::new();
    rooms.insert(test_uuid(1), make_room(1, -1));

    let mut room_messages = std::collections::HashMap::new();
    room_messages.insert(
        test_uuid(1),
        vec![DisplayMessage::user(
            test_uuid(1),
            "alice",
            "old",
            now - 9999,
        )],
    );

    let removed = remove_expired_messages(&rooms, &mut room_messages);
    assert!(!removed);
    assert_eq!(room_messages[&test_uuid(1)].len(), 1);
}

#[test]
fn test_remove_expired_messages_skips_fetch_then_delete() {
    let now = chrono::Utc::now().timestamp();
    let mut rooms = std::collections::HashMap::new();
    rooms.insert(test_uuid(1), make_room(1, 0));

    let mut room_messages = std::collections::HashMap::new();
    room_messages.insert(
        test_uuid(1),
        vec![DisplayMessage::user(
            test_uuid(1),
            "alice",
            "old",
            now - 9999,
        )],
    );

    let removed = remove_expired_messages(&rooms, &mut room_messages);
    assert!(!removed);
    assert_eq!(room_messages[&test_uuid(1)].len(), 1);
}

#[test]
fn test_remove_expired_messages_nothing_to_remove() {
    let now = chrono::Utc::now().timestamp();
    let mut rooms = std::collections::HashMap::new();
    rooms.insert(test_uuid(1), make_room(1, 60));

    let mut room_messages = std::collections::HashMap::new();
    room_messages.insert(
        test_uuid(1),
        vec![DisplayMessage::user(test_uuid(1), "alice", "recent", now)],
    );

    let removed = remove_expired_messages(&rooms, &mut room_messages);
    assert!(!removed);
    assert_eq!(room_messages[&test_uuid(1)].len(), 1);
}

fn make_member(id: u128) -> RoomMember {
    RoomMember {
        user_id: test_uuid(id),
        username: format!("user{id}"),
        alias: None,
        role: "member".into(),
        signing_key_fingerprint: None,
    }
}

#[test]
fn test_room_trust_level_all_verified() {
    let members = vec![make_member(1), make_member(2), make_member(3)];
    let mut status = std::collections::HashMap::new();
    status.insert(test_uuid(1), VerificationStatus::Verified);
    status.insert(test_uuid(2), VerificationStatus::Verified);
    status.insert(test_uuid(3), VerificationStatus::Verified);
    assert_eq!(
        room_trust_level(&members, &status),
        RoomTrustLevel::Verified
    );
}

#[test]
fn test_room_trust_level_one_unverified() {
    let members = vec![make_member(1), make_member(2)];
    let mut status = std::collections::HashMap::new();
    status.insert(test_uuid(1), VerificationStatus::Verified);
    status.insert(test_uuid(2), VerificationStatus::Unverified);
    assert_eq!(
        room_trust_level(&members, &status),
        RoomTrustLevel::Unverified
    );
}

#[test]
fn test_room_trust_level_one_unknown() {
    let members = vec![make_member(1), make_member(2)];
    let mut status = std::collections::HashMap::new();
    status.insert(test_uuid(1), VerificationStatus::Verified);
    status.insert(test_uuid(2), VerificationStatus::Unknown);
    assert_eq!(
        room_trust_level(&members, &status),
        RoomTrustLevel::Unverified
    );
}

#[test]
fn test_room_trust_level_one_changed() {
    let members = vec![make_member(1), make_member(2), make_member(3)];
    let mut status = std::collections::HashMap::new();
    status.insert(test_uuid(1), VerificationStatus::Verified);
    status.insert(test_uuid(2), VerificationStatus::Changed);
    status.insert(test_uuid(3), VerificationStatus::Verified);
    assert_eq!(room_trust_level(&members, &status), RoomTrustLevel::Risky);
}

#[test]
fn test_room_trust_level_missing_entry() {
    let members = vec![make_member(1), make_member(2)];
    let mut status = std::collections::HashMap::new();
    status.insert(test_uuid(1), VerificationStatus::Verified);
    assert_eq!(
        room_trust_level(&members, &status),
        RoomTrustLevel::Unverified
    );
}

#[test]
fn test_room_trust_level_empty_members() {
    let status = std::collections::HashMap::new();
    assert_eq!(room_trust_level(&[], &status), RoomTrustLevel::Verified);
}

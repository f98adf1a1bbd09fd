use std::collections::HashMap;

use conclave::cli::replies::{
    accepted_line, admins_line, info_lines, invite_lines, members_line, room_invite_lines,
    known_key_label, rooms_lines, status_label, unmapped_notice, welcome_joined_line, Admin,
    PendingInvite, RoomInvite,
};
use conclave::cli::state::AppState;
use conclave::state::{Room, RoomMember, VerificationStatus};

fn uuid_text(v: u128) -> String {
    uuid::Uuid::from_u128(v).to_string()
}

fn member(id: u128, name: &str, alias: Option<&str>, role: &str) -> RoomMember {
    RoomMember {
        user_id: id,
        username: name.to_string(),
        alias: alias.map(|a| a.to_string()),
        role: role.to_string(),
        signing_key_fingerprint: None,
    }
}

fn room(id: u128, name: &str, members: Vec<RoomMember>) -> Room {
    Room {
        server_group_id: id,
        group_name: name.to_string(),
        alias: None,
        members,
        last_seen_seq: 0,
        last_read_seq: 0,
        message_expiry_seconds: -1,
    }
}

#[test]
fn members_are_listed_with_trust_and_role() {
    let r = room(
        10,
        "general",
        vec![
            member(1, "alice", None, "admin"),
            member(2, "bob", Some("Bobby"), "member"),
            member(3, "carol", None, "member"),
            member(4, "dave", None, "member"),
        ],
    );
    let statuses = [
        VerificationStatus::Verified,
        VerificationStatus::Changed,
        VerificationStatus::Unknown,
        VerificationStatus::Unverified,
    ];
    assert_eq!(
        members_line(&r, &statuses),
        "Members of #general: alice (admin), [!] Bobby, [?] carol, [?] dave"
    );
}

#[test]
fn pending_invitations_are_listed() {
    assert_eq!(invite_lines(&[]), vec!["No pending invitations."]);
    let invites = vec![
        PendingInvite {
            invite_id: 0xab,
            group_name: "team".to_string(),
            group_alias: String::new(),
            inviter_username: "alice".to_string(),
        },
        PendingInvite {
            invite_id: 0xcd,
            group_name: "ops".to_string(),
            group_alias: "Operations".to_string(),
            inviter_username: "bob".to_string(),
        },
    ];
    let lines = invite_lines(&invites);
    assert_eq!(lines.len(), 3);
    assert_eq!(lines[0], format!("[{}] #team \u{2014} invited by alice", uuid_text(0xab)));
    assert_eq!(lines[1], format!("[{}] #Operations \u{2014} invited by bob", uuid_text(0xcd)));
    assert_eq!(lines[2], "Use /accept <id> or /decline <id> to respond.");
}

#[test]
fn room_invitations_name_known_members() {
    let mut rooms = HashMap::new();
    rooms.insert(10u128, room(10, "general", vec![member(2, "bob", Some("Bobby"), "member")]));
    assert_eq!(room_invite_lines(&rooms, 10, &[]), vec!["No pending invites for this room."]);
    let invites = vec![
        RoomInvite { invitee_id: 2, inviter_username: "alice".to_string() },
        RoomInvite { invitee_id: 9, inviter_username: "alice".to_string() },
    ];
    let lines = room_invite_lines(&rooms, 10, &invites);
    assert_eq!(lines[0], "Pending invites for #general:");
    assert_eq!(lines[1], "  Bobby \u{2014} invited by alice");
    assert_eq!(lines[2], format!("  user#{} \u{2014} invited by alice", uuid_text(9)));
    let lines = room_invite_lines(&rooms, 11, &invites[..1]);
    assert_eq!(lines[0], "Pending invites for #:");
    assert_eq!(lines[1], format!("  user#{} \u{2014} invited by alice", uuid_text(2)));
}

#[test]
fn admins_and_joined_lines() {
    let mut rooms = HashMap::new();
    rooms.insert(10u128, room(10, "general", vec![]));
    let admins = vec![
        Admin { alias: String::new(), username: "alice".to_string() },
        Admin { alias: "Bobby".to_string(), username: "bob".to_string() },
    ];
    assert_eq!(admins_line(&rooms, 10, &admins), "Admins of #general: alice, Bobby (@bob)");
    assert_eq!(welcome_joined_line(7, Some("team")), format!("Joined #team ({})", uuid_text(7)));
    assert_eq!(
        accepted_line(7, None),
        format!("Accepted invitation to #{} ({})", uuid_text(7), uuid_text(7))
    );
}

#[test]
fn rooms_without_encryption_state_are_counted() {
    let mut state = AppState::new();
    assert_eq!(unmapped_notice(&state), None);
    state.rooms.insert(1, room(1, "a", vec![]));
    state.rooms.insert(2, room(2, "b", vec![]));
    state.rooms.insert(3, room(3, "c", vec![]));
    state.group_mapping.insert(2, "mls2".to_string());
    state.group_mapping.insert(8, "mls8".to_string());
    assert_eq!(
        unmapped_notice(&state).as_deref(),
        Some("2 group(s) have no local encryption state. Run /reset to rejoin them with a new identity.")
    );
}

#[test]
fn rooms_are_listed_once_each() {
    let mut state = AppState::new();
    assert_eq!(rooms_lines(&state), vec!["No rooms."]);
    state.rooms.insert(1, room(1, "a", vec![member(5, "eve", None, "member"), member(6, "fay", Some("F"), "member")]));
    state.rooms.insert(2, room(2, "b", vec![]));
    state.active_room = Some(2);
    let mut lines = rooms_lines(&state);
    assert_eq!(lines.remove(0), "Rooms:");
    lines.sort();
    assert_eq!(
        lines,
        vec![
            format!("  #a [eve, F] -- {}", uuid_text(1)),
            format!("  #b [] -- {} (active)", uuid_text(2)),
        ]
    );
}

#[test]
fn group_details_are_shown() {
    let mut rooms = HashMap::new();
    rooms.insert(10u128, room(10, "general", vec![member(2, "bob", None, "member")]));
    let lines = info_lines(&rooms, 10, "abcd", 3, "CURVE25519", 2, 1, &[(0, Some(2)), (1, Some(9)), (2, None)]);
    assert_eq!(
        lines,
        vec![
            "Group: #general".to_string(),
            format!("  Server ID: {}", uuid_text(10)),
            "  MLS Group ID: abcd".to_string(),
            "  Epoch: 3".to_string(),
            "  Cipher Suite: CURVE25519".to_string(),
            "  Members: 2 (your index: 1)".to_string(),
            "    [0] bob".to_string(),
            format!("    [1] user#{} (you)", uuid_text(9)),
            "    [2] <unknown>".to_string(),
        ]
    );
    let lines = info_lines(&rooms, 11, "x", 0, "c", 0, 0, &[]);
    assert_eq!(lines[0], "Group: #unknown");
}

#[test]
fn key_status_labels() {
    assert_eq!(status_label(VerificationStatus::Changed), "Changed (warning!)");
    assert_eq!(status_label(VerificationStatus::Unknown), "Unknown");
    assert_eq!(known_key_label(true, true), "Changed");
    assert_eq!(known_key_label(true, false), "Verified");
    assert_eq!(known_key_label(false, false), "Unverified");
}

#[test]
fn profile_line() {
    assert_eq!(conclave::cli::replies::user_line("alice", 5), format!("User: alice (ID: {})", uuid_text(5)));
}

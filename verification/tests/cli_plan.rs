use conclave::cli::outcomes::{
    accepted_invites, created_room, done_line, expiry_set_line, greeting, invited_line, joined_welcomes,
    logged_in, logged_out, parted, restore_login, restore_room, room_deleted, unverified, Done,
};
use conclave::cli::plan::{plan, Plan};
use conclave::cli::state::AppState;
use conclave::command::Command;
use conclave::operations::WelcomeJoinResult;
use conclave::state::{DisplayMessage, Room, RoomMember, VerificationStatus};

fn uuid_text(v: u128) -> String {
    uuid::Uuid::from_u128(v).to_string()
}

fn member(id: u128, name: &str) -> RoomMember {
    RoomMember { user_id: id, username: name.to_string(), alias: None, role: "member".to_string(), signing_key_fingerprint: None }
}

fn room(id: u128, name: &str) -> Room {
    Room {
        server_group_id: id,
        group_name: name.to_string(),
        alias: None,
        members: vec![member(1, "me"), member(2, "bob")],
        last_seen_seq: 4,
        last_read_seq: 1,
        message_expiry_seconds: -1,
    }
}

fn refused(p: Plan) -> String {
    match p {
        Plan::Refused(m) => m,
        _ => panic!("expected a refusal"),
    }
}

#[test]
fn commands_are_checked_before_requests() {
    let mut state = AppState::new();
    assert_eq!(refused(plan(&state, false, &Command::Create { name: "x".into() })), "not logged in");
    assert!(matches!(plan(&state, false, &Command::Logout), Plan::Reply(m) if m == "Not logged in."));
    assert!(matches!(plan(&state, false, &Command::Login { server: "s".into(), username: "u".into() }), Plan::Session));
    state.user_id = Some(1);
    state.logged_in = true;
    assert!(matches!(plan(&state, false, &Command::Create { name: "x".into() }), Plan::User { user_id: 1 }));
    assert_eq!(refused(plan(&state, false, &Command::Rotate)), "no active room -- use /join first");
    assert!(matches!(plan(&state, false, &Command::Unread), Plan::Reply(m) if m == "No rooms."));
    state.rooms.insert(10, room(10, "general"));
    state.active_room = Some(10);
    assert_eq!(refused(plan(&state, true, &Command::Info)), "group mapping not found");
    state.group_mapping.insert(10, "ab".into());
    assert!(matches!(plan(&state, true, &Command::Info), Plan::Info { group_id: 10, .. }));
    assert_eq!(refused(plan(&state, false, &Command::Info)), "not logged in");
    assert!(matches!(plan(&state, false, &Command::Kick { username: "bob".into() }), Plan::Kick { target: 2, group_id: 10, .. }));
    assert_eq!(
        refused(plan(&state, false, &Command::Promote { username: "zed".into() })),
        "user 'zed' not found in the room member list"
    );
    assert!(matches!(plan(&state, false, &Command::Expire { duration: Some("1h".into()) }), Plan::SetExpiry { group_id: 10, seconds: 3600 }));
    assert!(matches!(plan(&state, false, &Command::Part), Plan::Leave { user_id: 1, group_id: 10, mls_group_id: Some(_) }));
    assert!(matches!(plan(&state, false, &Command::Close), Plan::Local));
}

#[test]
fn outcomes_update_state_and_report() {
    let mut state = AppState::new();
    let m = logged_in(&mut state, "alice", 7, false);
    assert_eq!(m.content, format!("Logged in as alice (user ID {})", uuid_text(7)));
    assert!(state.logged_in);
    let m = created_room(&mut state, "team", 10, "ab".into());
    assert_eq!(m.content, format!("Created and joined #team ({})", uuid_text(10)));
    assert_eq!(state.active_room, Some(10));
    assert_eq!(state.group_mapping.get(&10).map(|s| s.as_str()), Some("ab"));
    let joined = vec![
        WelcomeJoinResult { group_id: 11, group_alias: Some("ops".into()), mls_group_id: "cd".into() },
        WelcomeJoinResult { group_id: 12, group_alias: None, mls_group_id: "ef".into() },
    ];
    let lines = joined_welcomes(&mut state, &joined);
    assert_eq!(lines[0].content, format!("Joined #ops ({})", uuid_text(11)));
    assert_eq!(lines[1].content, format!("Joined #{} ({})", uuid_text(12), uuid_text(12)));
    assert_eq!(state.active_room, Some(12));
    assert_eq!(state.group_mapping.len(), 3);
    assert_eq!(joined_welcomes(&mut state, &[])[0].content, "No pending invitations.");
    assert_eq!(accepted_invites(&mut state, &[], false)[0].content, "No pending invitations to accept.");
    let acc = accepted_invites(&mut state, &joined[..1], true);
    assert_eq!(acc[0].content, format!("Accepted invitation to #ops ({})", uuid_text(11)));
    state.rooms.insert(10, room(10, "team"));
    assert_eq!(parted(&mut state, 10).content, "Left #team");
    assert!(!state.group_mapping.contains_key(&10));
    state.rooms.insert(11, room(11, "ops"));
    state.room_messages.insert(11, vec![DisplayMessage::system("x")]);
    assert_eq!(room_deleted(&mut state, 11).content, "Room #ops has been deleted");
    assert!(!state.room_messages.contains_key(&11));
    assert_eq!(expiry_set_line(3600), "Message expiry set to 1h");
    assert_eq!(done_line(Done::Kicked, "bob").content, "Removed bob from the room");
    assert_eq!(done_line(Done::Demoted, "bob").content, "Demoted bob to regular member");
    assert_eq!(done_line(Done::TopicSet, "Ops").content, "Room alias set to: Ops");
    assert_eq!(invited_line(&[], &[]).content, "No new members to invite.");
    let asked = vec![(2u128, "bob".to_string()), (3u128, "carol".to_string())];
    assert_eq!(invited_line(&asked, &[3, 9, 2]).content, "Invited carol, bob to the room");
    let m = unverified(&mut state, "bob", 2, true);
    assert_eq!(m.content, "Removed verification for bob.");
    assert_eq!(state.verification_status.get(&2), Some(&VerificationStatus::Unverified));
    assert_eq!(unverified(&mut state, "zed", 9, false).content, "No stored fingerprint for zed.");
    assert_eq!(greeting(&state).content, "Welcome back, alice. Type /help for commands.");
    assert_eq!(logged_out(&mut state, false).content, "Logged out. Session revoked.");
    assert!(state.rooms.is_empty() && !state.logged_in);
    assert_eq!(
        greeting(&state).content,
        "Welcome to Conclave. Use /register and /login to get started. Type /help for commands."
    );
}

#[test]
fn session_and_rooms_are_restored() {
    let mut state = AppState::new();
    restore_login(&mut state, false, Some("x".into()), Some(1));
    assert!(!state.logged_in && state.username.is_none());
    restore_login(&mut state, true, Some("alice".into()), Some(1));
    assert!(state.logged_in);
    state.rooms.insert(10, room(10, "team"));
    restore_room(&mut state, 10, 9, 8, vec![DisplayMessage::system("a"), DisplayMessage::system("b")]);
    let r = state.rooms.get(&10).unwrap();
    assert_eq!((r.last_seen_seq, r.last_read_seq), (9, 8));
    assert_eq!(state.room_messages.get(&10).unwrap().len(), 2);
}

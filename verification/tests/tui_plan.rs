use conclave::repl::{fetched_line, group_line, reply_line, ReplReply};
use conclave::operations::{classify_received, AppliedProposal, CommitEffectKind, DecryptedMessage, Received};
use conclave::error::Error;
use conclave::tui::commands::{switch_room, Command};
use conclave::tui::plan::{client_done, created, joined, left, logged_in, plan, registered_line, sent, ClientDone, Joined, Plan};
use conclave::tui::state::{AppState, DisplayMessage, Room};

fn room(id: u128, name: &str) -> Room {
    Room { server_group_id: id, name: name.to_string(), members: vec!["a".into()], last_seen_seq: 5, last_read_seq: 1 }
}

#[test]
fn client_commands_are_checked_before_requests() {
    let mut state = AppState::new();
    assert!(matches!(plan(&state, false, &Command::Keygen), Plan::Refused(m) if m == "not logged in"));
    assert!(matches!(plan(&state, true, &Command::Keygen), Plan::Identity));
    assert!(matches!(plan(&state, true, &Command::Rotate), Plan::Refused(m) if m == "no active room \u{2014} use /join first"));
    state.rooms.insert(7, room(7, "General"));
    state.rooms.insert(8, room(8, "ops"));
    state.group_mapping.insert(7, "aa".into());
    assert!(matches!(plan(&state, true, &Command::Msg { room: "gen".into(), text: "hi".into() }), Plan::Group { group_id: 7, .. }));
    assert!(matches!(plan(&state, true, &Command::Msg { room: "ops".into(), text: "hi".into() }), Plan::Refused(m) if m == "group mapping not found"));
    assert!(matches!(plan(&state, true, &Command::Msg { room: "zz".into(), text: "hi".into() }), Plan::Refused(m) if m == "Unknown room 'zz'"));
    let id_text = uuid::Uuid::from_u128(8).to_string();
    assert!(matches!(plan(&state, true, &Command::Msg { room: id_text.clone(), text: "hi".into() }), Plan::Refused(m) if m == "group mapping not found"));
    assert!(matches!(plan(&state, false, &Command::Leave), Plan::Refused(_)));
}

#[test]
fn join_by_exact_id_text_and_frame() {
    let mut state = AppState::new();
    state.rooms.insert(7, room(7, "General"));
    state.rooms.insert(0xab, room(0xab, "ops"));
    let upper = uuid::Uuid::from_u128(0xab).to_string().to_uppercase();
    let (m, g) = switch_room(&mut state, &upper);
    assert_eq!(g, None);
    assert!(m.content.starts_with("Unknown room"));
    let exact = uuid::Uuid::from_u128(0xab).to_string();
    let (_, g) = switch_room(&mut state, &exact);
    assert_eq!(g, Some(0xab));
    assert_eq!(state.rooms.get(&0xab).unwrap().last_read_seq, 5);
    assert_eq!(state.rooms.get(&7).unwrap().last_read_seq, 1);
}

#[test]
fn client_outcomes() {
    let mut state = AppState::new();
    assert_eq!(logged_in(&mut state, "alice", 3).content, "Logged in as alice (user ID 3)");
    let m = created(&mut state, "team", 9, "ab");
    assert!(m.content.starts_with("Created and joined #team ("));
    assert_eq!(state.active_room, Some(9));
    state.rooms.insert(9, room(9, "team"));
    sent(&mut state, 9, DisplayMessage::user("alice", "hi", 0), 12);
    assert_eq!(state.rooms.get(&9).unwrap().last_seen_seq, 12);
    assert_eq!(state.room_messages.get(&9).unwrap().len(), 1);
    assert_eq!(left(&mut state, 9).content, "Left #team");
    assert!(state.rooms.is_empty() && state.group_mapping.is_empty());
}

#[test]
fn received_messages_are_classified() {
    assert!(matches!(classify_received(Err(())), DecryptedMessage::NoContent));
    assert!(matches!(classify_received(Ok(Received::Other)), DecryptedMessage::NoContent));
    match classify_received(Ok(Received::Application(b"hi".to_vec()))) {
        DecryptedMessage::Application(d) => assert_eq!(d, b"hi"),
        _ => panic!("expected an application message"),
    }
    let r = Received::Commit {
        effect: CommitEffectKind::Removed,
        proposals: vec![AppliedProposal::Add(Some(b"dan".to_vec())), AppliedProposal::Remove(4)],
    };
    match classify_received(Ok(r)) {
        DecryptedMessage::Commit(c) => {
            assert!(c.self_removed);
            assert_eq!(c.members_added, vec!["dan"]);
            assert_eq!(c.members_removed, vec!["#4"]);
        }
        _ => panic!("expected a commit"),
    }
}

#[test]
fn line_client_replies() {
    assert_eq!(reply_line(&ReplReply::Sent { sequence_num: 5 }), "Message sent (seq: 5)");
    assert_eq!(
        reply_line(&ReplReply::Invited { group_id: "g1".into(), names: vec!["a".into(), "b".into()] }),
        "Invited a, b to group g1"
    );
    assert_eq!(reply_line(&ReplReply::Created { name: "t".into(), group_id: "g".into() }), "Group 't' created (ID: g)");
    assert_eq!(group_line("g1", "team", &["a".to_string(), "b".to_string()]), "  g1 - team [members: a, b]");
    let ok: Result<DecryptedMessage, Error> = Ok(DecryptedMessage::Application(b"yo".to_vec()));
    assert_eq!(fetched_line(3, "bob", &ok), Some((false, "  [3] bob: yo".to_string())));
    let none: Result<DecryptedMessage, Error> = Ok(DecryptedMessage::NoContent);
    assert_eq!(fetched_line(3, "bob", &none), None);
    let err: Result<DecryptedMessage, Error> = Err(Error::Mls("bad".into()));
    assert_eq!(fetched_line(3, "bob", &err), Some((true, "  [3] bob: <decryption failed: MLS error: bad>".to_string())));
}

#[test]
fn client_join_and_done_lines() {
    let mut state = AppState::new();
    assert_eq!(registered_line(4).content, "Registered as user ID 4");
    assert_eq!(joined(&mut state, &[])[0].content, "No pending invitations.");
    let groups = vec![
        Joined { group_id: 1, group_name: "a".into(), mls_group_id: "aa".into() },
        Joined { group_id: 2, group_name: "b".into(), mls_group_id: "bb".into() },
    ];
    let lines = joined(&mut state, &groups);
    assert_eq!(lines[1].content, format!("Joined #b ({})", uuid::Uuid::from_u128(2)));
    assert_eq!(state.active_room, Some(2));
    assert_eq!(state.group_mapping.get(&1).map(|s| s.as_str()), Some("aa"));
    assert_eq!(client_done(ClientDone::Invited, &["x".into(), "y".into()]).content, "Invited x, y to the room");
    assert_eq!(client_done(ClientDone::Rotated, &[]).content, "Keys rotated. Forward secrecy updated.");
}

use conclave::cli::commands::{
    admin_label, clear_login, close_room, command_group, deleted_room, deliver_message, expiry_lines,
    member_id_by_name, merge_rooms, require_active_room, require_mls_group, require_user_id,
    switch_room, unread_line, CommandGroup,
};
use conclave::cli::events::{
    catch_up_plan,
    group_deleted, identity_reset_message, invite_cancelled_message, invite_declined_message,
    invite_received_message, member_removed, note_seen, show_fetched, welcome_message,
};
use conclave::cli::session::NotificationMethod;
use conclave::cli::state::AppState;
use conclave::command::parse;
use conclave::operations::{MemberInfo, ProcessedMessage, RoomInfo};
use conclave::state::{DisplayMessage, Room, RoomMember, VerificationStatus};
use conclave::repl::member_names_of;
use conclave::cli::commands::refresh_trust;
use std::collections::HashMap;

fn uuid_text(v: u128) -> String {
    uuid::Uuid::from_u128(v).to_string()
}

fn member(id: u128, name: &str, alias: Option<&str>) -> RoomMember {
    RoomMember {
        user_id: id,
        username: name.to_string(),
        alias: alias.map(|a| a.to_string()),
        role: "member".to_string(),
        signing_key_fingerprint: None,
    }
}

fn room(id: u128, name: &str, members: Vec<RoomMember>) -> Room {
    Room {
        server_group_id: id,
        group_name: name.to_string(),
        alias: None,
        members,
        last_seen_seq: 0,
        last_read_seq: 0,
        message_expiry_seconds: -1,
    }
}

fn state_with_room() -> AppState {
    let mut state = AppState::new();
    state.user_id = Some(1);
    state.rooms.insert(10, room(10, "general", vec![member(1, "me", None), member(2, "bob", Some("Bobby"))]));
    state.group_mapping.insert(10, "mls10".to_string());
    state.active_room = Some(10);
    state
}

#[test]
fn event_messages() {
    let state = state_with_room();
    assert_eq!(
        identity_reset_message(&state.rooms, 10, 2).content,
        "Caution: Bobby has reset their encryption identity."
    );
    assert_eq!(
        invite_declined_message(&state.rooms, 10, 3).content,
        format!("{} declined the invitation.", format!("user#{}", uuid_text(3)))
    );
    let m = invite_received_message(5, "devs", "", 6);
    assert_eq!(
        m.content,
        format!(
            "Invitation from user#{} to join #devs. Use /accept {} or /decline {}.",
            uuid_text(6),
            uuid_text(5),
            uuid_text(5)
        )
    );
    assert!(invite_received_message(5, "devs", "Dev Team", 6).content.contains("#Dev Team."));
    assert_eq!(invite_cancelled_message().content, "An invitation to this room was cancelled.");
    assert_eq!(
        welcome_message(10, "").content,
        format!("You have been invited to #{} ({})", uuid_text(10), uuid_text(10))
    );
    assert_eq!(
        welcome_message(10, "chat").content,
        format!("You have been invited to #chat ({})", uuid_text(10))
    );
}

#[test]
fn removal_of_another_member_updates_roster() {
    let mut state = state_with_room();
    let m = member_removed(&mut state, 10, 2);
    assert_eq!(m.content, "Bobby was removed from the group");
    assert_eq!(state.rooms[&10].members.len(), 1);
    assert_eq!(state.active_room, Some(10));
    assert!(state.group_mapping.contains_key(&10));
}

#[test]
fn removal_of_self_forgets_group() {
    let mut state = state_with_room();
    let m = member_removed(&mut state, 10, 1);
    assert_eq!(m.content, "You were removed from #general");
    assert!(state.rooms.is_empty());
    assert!(state.group_mapping.is_empty());
    assert_eq!(state.active_room, None);
}

#[test]
fn deleted_group_is_forgotten() {
    let mut state = state_with_room();
    let m = group_deleted(&mut state, 10);
    assert_eq!(m.content, "Room #general has been deleted");
    assert!(state.rooms.is_empty());
    let m = group_deleted(&mut state, 11);
    assert_eq!(m.content, format!("Room #{} has been deleted", uuid_text(11)));
}

#[test]
fn fetched_messages_advance_last_seen_only_upwards() {
    let mut state = state_with_room();
    note_seen(&mut state.rooms, 10, 7);
    note_seen(&mut state.rooms, 10, 3);
    assert_eq!(state.rooms[&10].last_seen_seq, 7);
    let fetched = vec![
        ProcessedMessage {
            sender_id: Some(2),
            sender: "bob".to_string(),
            content: "hi".to_string(),
            timestamp: 100,
            sequence_num: 9,
            epoch: 4,
            is_system: false,
        },
        ProcessedMessage::system("Group keys updated".to_string(), 101, 8, 5),
    ];
    let shown = show_fetched(&mut state.rooms, 10, &fetched);
    assert_eq!(shown.len(), 2);
    assert_eq!(shown[0].sender_id, Some(2));
    assert_eq!(shown[0].content, "hi");
    assert_eq!(shown[0].sequence_num, Some(9));
    assert_eq!(shown[0].epoch, Some(4));
    assert!(shown[1].is_system);
    assert_eq!(shown[1].content, "Group keys updated");
    assert_eq!(state.rooms[&10].last_seen_seq, 9);
}

#[test]
fn command_groups() {
    assert_eq!(command_group(&parse("/login s u").unwrap()), CommandGroup::Account);
    assert_eq!(command_group(&parse("/rooms").unwrap()), CommandGroup::Room);
    assert_eq!(command_group(&parse("/kick bob").unwrap()), CommandGroup::Member);
    assert_eq!(command_group(&parse("/invites").unwrap()), CommandGroup::Invite);
    assert_eq!(command_group(&parse("hello").unwrap()), CommandGroup::Messaging);
    assert_eq!(command_group(&parse("/help").unwrap()), CommandGroup::Profile);
}

#[test]
fn command_requirements() {
    let mut state = state_with_room();
    assert_eq!(require_user_id(&state).unwrap(), 1);
    assert_eq!(require_active_room(&state).unwrap(), 10);
    assert_eq!(require_mls_group(&state, 10).unwrap(), "mls10");
    assert_eq!(require_mls_group(&state, 11).unwrap_err().message(), "group mapping not found");
    assert_eq!(member_id_by_name(&state, 10, "bob").unwrap(), 2);
    assert_eq!(
        member_id_by_name(&state, 10, "carol").unwrap_err().message(),
        "user 'carol' not found in the room member list"
    );
    clear_login(&mut state);
    assert_eq!(require_user_id(&state).unwrap_err().message(), "not logged in");
    assert_eq!(
        require_active_room(&state).unwrap_err().message(),
        "no active room -- use /join first"
    );
}

#[test]
fn switching_and_closing_rooms() {
    let mut state = state_with_room();
    state.active_room = None;
    state.rooms.get_mut(&10).unwrap().last_seen_seq = 4;
    state.scroll_offset = 3;
    let (m, g) = switch_room(&mut state, "GEN");
    assert_eq!(g, Some(10));
    assert_eq!(m.content, "Switched to #general");
    assert_eq!(state.active_room, Some(10));
    assert_eq!(state.scroll_offset, 0);
    assert_eq!(state.rooms[&10].last_read_seq, 4);
    let (m, g) = switch_room(&mut state, "nowhere");
    assert_eq!(g, None);
    assert_eq!(m.content, "Unknown room 'nowhere'. Use /rooms to list available rooms.");
    let m = close_room(&mut state);
    assert_eq!(m.content, "Switched away from #general (use /part to leave the group)");
    assert_eq!(close_room(&mut state).content, "No active room.");
    deleted_room(&mut state, 10);
    assert!(state.rooms.is_empty());
}

#[test]
fn unread_and_expiry_lines() {
    let mut r = room(1, "devs", vec![]);
    r.last_seen_seq = 5;
    r.last_read_seq = 3;
    assert_eq!(unread_line(&r, 0).unwrap(), "  #devs: 2 new messages");
    r.last_read_seq = 5;
    assert_eq!(unread_line(&r, 1).unwrap(), "  #devs: 1 new message");
    assert_eq!(unread_line(&r, 0), None);
    r.last_read_seq = 9;
    assert_eq!(unread_line(&r, 0), None);
    let lines = expiry_lines(-1, 3600);
    assert_eq!(lines[0], "Server retention: disabled");
    assert_eq!(lines[1], "Room expiry: 1h");
    assert_eq!(lines[2], "Effective: 1h");
    assert_eq!(admin_label("", "bob"), "bob");
    assert_eq!(admin_label("Bobby", "bob"), "Bobby (@bob)");
}

#[test]
fn merging_rooms_keeps_counters_and_drops_stale() {
    let mut state = state_with_room();
    state.rooms.insert(20, room(20, "old", vec![]));
    state.group_mapping.insert(20, "mls20".to_string());
    state.rooms.get_mut(&10).unwrap().last_seen_seq = 8;
    state.active_room = Some(20);
    let infos = vec![
        RoomInfo {
            group_id: 10,
            group_name: "general-renamed".to_string(),
            alias: Some("Gen".to_string()),
            members: vec![MemberInfo {
                user_id: 1,
                username: "me".to_string(),
                alias: None,
                role: "admin".to_string(),
                signing_key_fingerprint: Some("ff".to_string()),
            }],
            mls_group_id: None,
            message_expiry_seconds: 60,
        },
        RoomInfo {
            group_id: 30,
            group_name: "new".to_string(),
            alias: None,
            members: vec![],
            mls_group_id: None,
            message_expiry_seconds: -1,
        },
    ];
    merge_rooms(&mut state, &infos);
    assert_eq!(state.rooms.len(), 2);
    assert_eq!(state.rooms[&10].last_seen_seq, 8);
    assert_eq!(state.rooms[&10].group_name, "general-renamed");
    assert_eq!(state.rooms[&10].display_name(), "Gen");
    assert_eq!(state.rooms[&10].members[0].role, "admin");
    assert_eq!(state.rooms[&30].last_seen_seq, 0);
    assert!(!state.group_mapping.contains_key(&20));
    assert!(state.group_mapping.contains_key(&10));
    assert_eq!(state.active_room, None);
}

#[test]
fn delivery_to_active_and_other_rooms() {
    let mut state = state_with_room();
    state.rooms.insert(11, room(11, "other", vec![]));
    state.scroll_offset = 4;
    let d = deliver_message(&mut state, Some(10), DisplayMessage::user(2, "bob", "hi", 1), NotificationMethod::Both);
    assert!(d.shown && d.store_message && !d.notify_native && !d.ring_bell);
    assert_eq!(state.scroll_offset, 0);
    assert_eq!(state.active_messages().len(), 1);
    state.scroll_offset = 4;
    let d = deliver_message(&mut state, Some(11), DisplayMessage::user(2, "bob", "psst", 2), NotificationMethod::Both);
    assert!(!d.shown && d.notify_native && d.ring_bell);
    assert_eq!(state.scroll_offset, 4);
    assert_eq!(state.active_messages().len(), 1);
    let d = deliver_message(&mut state, None, DisplayMessage::system("note"), NotificationMethod::Native);
    assert_eq!(d.group_id, Some(10));
    assert!(d.shown && !d.store_message);
    assert_eq!(state.active_messages().len(), 2);
    let d = deliver_message(&mut state, Some(11), DisplayMessage::system("sys"), NotificationMethod::Bell);
    assert!(!d.notify_native && !d.ring_bell);
}

#[test]
fn catch_up_covers_mapped_rooms() {
    let mut state = state_with_room();
    state.rooms.insert(11, room(11, "other", vec![]));
    assert!(catch_up_plan(&state).is_empty());
    state.username = Some("me".to_string());
    state.rooms.get_mut(&10).unwrap().last_seen_seq = 6;
    let plan = catch_up_plan(&state);
    assert_eq!(plan, vec![(10u128, 6u64, "mls10".to_string())]);
}

#[test]
fn merge_keeps_the_last_listing_and_other_fields() {
    let mut state = state_with_room();
    state.system_messages.push(DisplayMessage::system("kept"));
    let info = |name: &str| RoomInfo {
        group_id: 10,
        group_name: name.to_string(),
        alias: None,
        members: vec![],
        mls_group_id: None,
        message_expiry_seconds: -1,
    };
    merge_rooms(&mut state, &[info("first"), info("second")]);
    assert_eq!(state.rooms[&10].group_name, "second");
    assert_eq!(state.system_messages.len(), 1);
    assert_eq!(state.user_id, Some(1));
}

#[test]
fn trust_is_refreshed_after_loading_rooms() {
    let mut statuses = HashMap::new();
    statuses.insert(9u128, VerificationStatus::Verified);
    let mut me = member(1, "me", None);
    me.signing_key_fingerprint = Some("aa".into());
    let mut bob = member(2, "bob", None);
    bob.signing_key_fingerprint = Some("bb".into());
    let carol = member(3, "carol", None);
    let members = vec![me, bob, carol];
    let looked = vec![VerificationStatus::Changed, VerificationStatus::Changed, VerificationStatus::Changed];
    refresh_trust(&mut statuses, Some(1), &members, &looked);
    assert_eq!(statuses.get(&1), Some(&VerificationStatus::Verified));
    assert_eq!(statuses.get(&2), Some(&VerificationStatus::Changed));
    assert_eq!(statuses.get(&3), None);
    assert_eq!(statuses.get(&9), Some(&VerificationStatus::Verified));
}

#[test]
fn invitation_lists_need_a_name() {
    assert_eq!(member_names_of(" bob , ,carol").unwrap(), vec!["bob", "carol"]);
    match member_names_of(" , ") {
        Err(e) => assert_eq!(e.message(), "no valid member names provided"),
        Ok(_) => panic!("expected an error"),
    }
}

use conclave::repl::{member_names, parse_repl_line, repl_help_lines, repl_prompt, ReplCommand};
use conclave::operations::GroupDetails;
use conclave::tui::commands::{group_info_lines, help_text, part_room, room_line, switch_room, unread_line, who};
use conclave::tui::render::{input_prefix, status_line, visible_range};
use conclave::tui::state::{AppState, ConnectionStatus, DisplayMessage, Room};

#[test]
fn repl_lines() {
    assert!(parse_repl_line("   ").is_none());
    assert!(matches!(parse_repl_line("/help"), Some(ReplCommand::Help)));
    match parse_repl_line("  /login bob pass word  ") {
        Some(ReplCommand::Login { username, password }) => {
            assert_eq!(username, "bob");
            assert_eq!(password, "pass word");
        }
        _ => panic!("expected login"),
    }
    match parse_repl_line("/create team alice, bob") {
        Some(ReplCommand::Create { name, members }) => {
            assert_eq!(name, "team");
            assert_eq!(members, vec!["alice", "bob"]);
        }
        _ => panic!("expected create"),
    }
    match parse_repl_line("/send g1 hello there") {
        Some(ReplCommand::Send { group_id, message }) => {
            assert_eq!(group_id, "g1");
            assert_eq!(message, "hello there");
        }
        _ => panic!("expected send"),
    }
    match parse_repl_line("/messages") {
        Some(ReplCommand::Usage(u)) => assert_eq!(u, "Usage: /messages <group_id>"),
        _ => panic!("expected usage"),
    }
    match parse_repl_line("/invite g1") {
        Some(ReplCommand::Usage(u)) => assert_eq!(u, "Usage: /invite <group_id> <member1,member2,...>"),
        _ => panic!("expected usage"),
    }
    assert!(matches!(parse_repl_line("/exit"), Some(ReplCommand::Quit)));
    assert!(matches!(parse_repl_line("/nope"), Some(ReplCommand::Unknown)));
    assert!(matches!(parse_repl_line("hello"), Some(ReplCommand::Unknown)));
}

#[test]
fn repl_prompt_and_help() {
    assert_eq!(repl_prompt(&None), "conclave> ");
    assert_eq!(repl_prompt(&Some("bob".to_string())), "bob> ");
    let help = repl_help_lines();
    assert_eq!(help.len(), 12);
    assert_eq!(help[0], "Commands:");
    assert!(help[11].contains("/quit"));
}

#[test]
fn member_name_lists() {
    assert_eq!(member_names(" alice, ,bob ,"), vec!["alice", "bob"]);
    assert!(member_names("").is_empty());
}

fn room(id: u128, name: &str, members: &[&str]) -> Room {
    Room {
        server_group_id: id,
        name: name.to_string(),
        members: members.iter().map(|m| m.to_string()).collect(),
        last_seen_seq: 3,
        last_read_seq: 1,
    }
}

#[test]
fn tui_state_basics() {
    let mut state = AppState::new();
    assert_eq!(state.connection_status, ConnectionStatus::Disconnected);
    assert!(state.active_messages().is_empty());
    state.push_system_message(DisplayMessage::system("hello"));
    assert_eq!(state.active_messages().len(), 1);
    state.rooms.insert(7, room(7, "General", &["alice", "bob"]));
    assert!(state.find_room_by_name("general").is_some());
    assert!(state.find_room_by_name("GEN").is_some());
    assert!(state.find_room_by_name("x").is_none());
    state.active_room = Some(7);
    assert!(state.active_messages().is_empty());
    state.push_room_message(7, DisplayMessage::user("alice", "hi", 5));
    assert_eq!(state.active_messages()[0].content, "hi");
    assert_eq!(state.active_room_info().unwrap().name, "General");
}

#[test]
fn tui_room_commands() {
    let mut state = AppState::new();
    state.rooms.insert(7, room(7, "General", &["alice", "bob"]));
    assert_eq!(who(&state).content, "No active room.");
    let (m, g) = switch_room(&mut state, "gen");
    assert_eq!(g, Some(7));
    assert_eq!(m.content, "Switched to #General");
    assert_eq!(state.rooms[&7].last_read_seq, 3);
    assert_eq!(who(&state).content, "Members of #General: alice, bob");
    let id_text = uuid::Uuid::from_u128(7).to_string();
    state.active_room = None;
    let (_, g) = switch_room(&mut state, &id_text);
    assert_eq!(g, Some(7));
    let (m, g) = switch_room(&mut state, "zzz");
    assert_eq!(g, None);
    assert_eq!(m.content, "Unknown room 'zzz'. Use /rooms to list available rooms.");
    assert_eq!(part_room(&mut state).content, "Switched away from #General (use /leave to leave the group)");
    assert_eq!(part_room(&mut state).content, "No active room.");
    let help = help_text();
    assert_eq!(help.len(), 23);
    assert_eq!(help[22], "Type text without / to send a message to the active room.");
}

#[test]
fn tui_listing_lines() {
    let r = room(7, "General", &["alice", "bob"]);
    let id = uuid::Uuid::from_u128(7).to_string();
    assert_eq!(room_line(&r, true), format!("  #General [alice, bob] \u{2014} {id} (active)"));
    assert_eq!(room_line(&r, false), format!("  #General [alice, bob] \u{2014} {id}"));
    assert_eq!(unread_line(&r, 0).unwrap(), "  #General: 2 new messages");
    assert_eq!(unread_line(&r, 5).unwrap(), "  #General: 7 new messages");
    let mut read = room(7, "General", &[]);
    read.last_read_seq = 3;
    assert_eq!(unread_line(&read, 1).unwrap(), "  #General: 1 new message");
    assert_eq!(unread_line(&read, 0), None);
    let details = GroupDetails {
        epoch: 4,
        cipher_suite: "CURVE25519_AES128".to_string(),
        member_count: 2,
        own_index: 1,
        members: vec![(0, "alice".to_string()), (1, "bob".to_string())],
    };
    let lines = group_info_lines("General", 7, "abcd", &details);
    assert_eq!(
        lines,
        vec![
            "Group: #General".to_string(),
            format!("  Server ID: {id}"),
            "  MLS Group ID: abcd".to_string(),
            "  Epoch: 4".to_string(),
            "  Cipher Suite: CURVE25519_AES128".to_string(),
            "  Members: 2 (your index: 1)".to_string(),
            "    [0] alice".to_string(),
            "    [1] bob (you)".to_string(),
        ]
    );
}

#[test]
fn client_status_line_and_prompt() {
    let mut state = AppState::new();
    let (text, pad) = status_line(&state);
    assert_eq!(text, " [disconnected] no room | not logged in ");
    assert_eq!(pad, 80 - text.len());
    assert_eq!(input_prefix(&state), "> ");
    state.rooms.insert(7, room(7, "general", &["alice", "bob"]));
    state.active_room = Some(7);
    state.username = Some("alice".to_string());
    state.connection_status = ConnectionStatus::Connected;
    state.terminal_cols = 10;
    let (text, pad) = status_line(&state);
    assert_eq!(text, " [connected] #general (2) | alice ");
    assert_eq!(pad, 0);
    assert_eq!(input_prefix(&state), "[#general] ");
}

#[test]
fn client_visible_range() {
    assert_eq!(visible_range(10, 4, 0), (6, 10));
    assert_eq!(visible_range(10, 4, 3), (3, 7));
    assert_eq!(visible_range(10, 4, 20), (0, 0));
    assert_eq!(visible_range(3, 22, 0), (0, 3));
}

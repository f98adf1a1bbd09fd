use conclave::command::{commands, format_help_lines, help_categories, parse, Command};

// Account

#[test]
fn command_test_parse_register() {
    let cmd = parse("/register example.com alice").unwrap();
    let Command::Register {
        server,
        username,
        token,
    } = cmd
    else {
        panic!("expected Register variant");
    };
    assert_eq!(server, "example.com");
    assert_eq!(username, "alice");
    assert_eq!(token, None);
}

#[test]
fn test_parse_register_with_token() {
    let cmd = parse("/register example.com alice mytoken").unwrap();
    let Command::Register {
        server,
        username,
        token,
    } = cmd
    else {
        panic!("expected Register variant");
    };
    assert_eq!(server, "example.com");
    assert_eq!(username, "alice");
    assert_eq!(token, Some("mytoken".to_string()));
}

#[test]
fn command_test_parse_register_missing_args() {
    assert!(parse("/register example.com").is_err());
    assert!(parse("/register").is_err());
}

#[test]
fn command_test_parse_login() {
    let cmd = parse("/login example.com alice").unwrap();
    let Command::Login { server, username } = cmd else {
        panic!("expected Login variant");
    };
    assert_eq!(server, "example.com");
    assert_eq!(username, "alice");
}

#[test]
fn command_test_parse_login_missing_args() {
    assert!(parse("/login example.com").is_err());
    assert!(parse("/login").is_err());
}

#[test]
fn test_parse_passwd() {
    let cmd = parse("/passwd").unwrap();
    assert!(matches!(cmd, Command::Passwd));
}

#[test]
fn test_parse_passwd_ignores_extra_args() {
    let cmd = parse("/passwd extra args").unwrap();
    assert!(matches!(cmd, Command::Passwd));
}

#[test]
fn test_parse_expunge() {
    let cmd = parse("/expunge").unwrap();
    assert!(matches!(cmd, Command::Expunge { password: None }));
}

// Rooms

#[test]
fn command_test_parse_create() {
    let cmd = parse("/create room").unwrap();
    let Command::Create { name } = cmd else {
        panic!("expected Create variant");
    };
    assert_eq!(name, "room");
}

#[test]
fn command_test_parse_create_missing_args() {
    assert!(parse("/create").is_err());
}

#[test]
fn command_test_parse_join_no_arg() {
    let cmd = parse("/join").unwrap();
    let Command::Join { target } = cmd else {
        panic!("expected Join variant");
    };
    assert!(target.is_none());
}

#[test]
fn command_test_parse_join_with_target() {
    let cmd = parse("/join myroom").unwrap();
    let Command::Join { target } = cmd else {
        panic!("expected Join variant");
    };
    assert_eq!(target, Some("myroom".to_string()));
}

// Members

#[test]
fn command_test_parse_invite() {
    let cmd = parse("/invite alice,bob").unwrap();
    let Command::Invite { members } = cmd else {
        panic!("expected Invite variant");
    };
    assert_eq!(members, vec!["alice", "bob"]);
}

#[test]
fn command_test_parse_invite_missing_args() {
    assert!(parse("/invite").is_err());
}

#[test]
fn command_test_parse_kick() {
    let cmd = parse("/kick alice").unwrap();
    let Command::Kick { username } = cmd else {
        panic!("expected Kick variant");
    };
    assert_eq!(username, "alice");
}

#[test]
fn command_test_parse_kick_missing_args() {
    assert!(parse("/kick").is_err());
}

#[test]
fn command_test_parse_part() {
    let cmd = parse("/part").unwrap();
    assert!(matches!(cmd, Command::Part));
}

#[test]
fn test_parse_close() {
    let cmd = parse("/close").unwrap();
    assert!(matches!(cmd, Command::Close));
}

#[test]
fn command_test_parse_rotate() {
    let cmd = parse("/rotate").unwrap();
    assert!(matches!(cmd, Command::Rotate));
}

#[test]
fn command_test_parse_reset() {
    let cmd = parse("/reset").unwrap();
    assert!(matches!(cmd, Command::Reset));
}

#[test]
fn command_test_parse_info() {
    let cmd = parse("/info").unwrap();
    assert!(matches!(cmd, Command::Info));
}

#[test]
fn command_test_parse_rooms() {
    let cmd = parse("/rooms").unwrap();
    assert!(matches!(cmd, Command::Rooms));
}

#[test]
fn command_test_parse_rooms_alias() {
    let cmd = parse("/list").unwrap();
    assert!(matches!(cmd, Command::Rooms));
}

#[test]
fn test_parse_members() {
    let cmd = parse("/members").unwrap();
    assert!(matches!(cmd, Command::Members));
}

#[test]
fn test_parse_members_alias() {
    let cmd = parse("/who").unwrap();
    assert!(matches!(cmd, Command::Members));
}

// Plain text

#[test]
fn command_test_parse_plain_message() {
    let cmd = parse("hello").unwrap();
    let Command::Message { text } = cmd else {
        panic!("expected Message variant");
    };
    assert_eq!(text, "hello");
}

#[test]
fn command_test_parse_unread() {
    let cmd = parse("/unread").unwrap();
    assert!(matches!(cmd, Command::Unread));
}

#[test]
fn command_test_parse_logout() {
    let cmd = parse("/logout").unwrap();
    assert!(matches!(cmd, Command::Logout));
}

#[test]
fn test_parse_whois_no_arg() {
    let cmd = parse("/whois").unwrap();
    let Command::Whois { username } = cmd else {
        panic!("expected Whois variant");
    };
    assert!(username.is_none());
}

#[test]
fn test_parse_whois_with_username() {
    let cmd = parse("/whois alice").unwrap();
    let Command::Whois { username } = cmd else {
        panic!("expected Whois variant");
    };
    assert_eq!(username, Some("alice".to_string()));
}

#[test]
fn test_parse_verify() {
    let cmd = parse("/verify alice a1b2c3d4 e5f6a7b8").unwrap();
    let Command::Verify {
        username,
        fingerprint,
    } = cmd
    else {
        panic!("expected Verify variant");
    };
    assert_eq!(username, "alice");
    assert_eq!(fingerprint, "a1b2c3d4 e5f6a7b8");
}

#[test]
fn test_parse_verify_missing_args() {
    assert!(parse("/verify").is_err());
    assert!(parse("/verify alice").is_err());
}

#[test]
fn test_parse_unverify() {
    let cmd = parse("/unverify alice").unwrap();
    let Command::Unverify { username } = cmd else {
        panic!("expected Unverify variant");
    };
    assert_eq!(username, "alice");
}

#[test]
fn test_parse_unverify_missing_args() {
    assert!(parse("/unverify").is_err());
}

#[test]
fn test_parse_trusted() {
    let cmd = parse("/trusted").unwrap();
    assert!(matches!(cmd, Command::Trusted));
}

// General

#[test]
fn command_test_parse_unknown_command() {
    assert!(parse("/xyz").is_err());
}

#[test]
fn command_test_parse_help() {
    let cmd = parse("/help").unwrap();
    assert!(matches!(cmd, Command::Help));
}

#[test]
fn command_test_parse_help_alias() {
    let cmd = parse("/h").unwrap();
    assert!(matches!(cmd, Command::Help));
}

#[test]
fn command_test_parse_quit() {
    let cmd = parse("/quit").unwrap();
    assert!(matches!(cmd, Command::Quit));
}

#[test]
fn command_test_parse_quit_aliases() {
    let cmd_exit = parse("/exit").unwrap();
    assert!(matches!(cmd_exit, Command::Quit));

    let cmd_q = parse("/q").unwrap();
    assert!(matches!(cmd_q, Command::Quit));
}

#[test]
fn test_parse_alias() {
    let cmd = parse("/alias Alice Smith").unwrap();
    let Command::Alias { alias } = cmd else {
        panic!("expected Alias variant");
    };
    assert_eq!(alias, "Alice Smith");
}

#[test]
fn test_parse_alias_alias() {
    let cmd = parse("/nick Alice Smith").unwrap();
    let Command::Alias { alias } = cmd else {
        panic!("expected Alias variant");
    };
    assert_eq!(alias, "Alice Smith");
}

#[test]
fn test_parse_alias_missing_args() {
    assert!(parse("/alias").is_err());
}

#[test]
fn test_parse_login_extra_args_in_username() {
    // Extra args after username are treated as part of the username
    // since /login only has 2 positional args.
    let cmd = parse("/login example.com alice extra").unwrap();
    let Command::Login { server, username } = cmd else {
        panic!("expected Login variant");
    };
    assert_eq!(server, "example.com");
    assert_eq!(username, "alice extra");
}

// Rooms (continued)

#[test]
fn test_parse_topic() {
    let cmd = parse("/topic Dev Team Chat").unwrap();
    let Command::Topic { topic } = cmd else {
        panic!("expected Topic variant");
    };
    assert_eq!(topic, "Dev Team Chat");
}

#[test]
fn test_parse_topic_missing_args() {
    assert!(parse("/topic").is_err());
}

// Members (continued)

#[test]
fn test_parse_admins() {
    let cmd = parse("/admins").unwrap();
    assert!(matches!(cmd, Command::Admins));
}

#[test]
fn test_parse_promote() {
    let cmd = parse("/promote alice").unwrap();
    let Command::Promote { username } = cmd else {
        panic!("expected Promote variant");
    };
    assert_eq!(username, "alice");
}

#[test]
fn test_parse_promote_missing_username() {
    assert!(parse("/promote").is_err());
}

#[test]
fn test_parse_demote() {
    let cmd = parse("/demote bob").unwrap();
    let Command::Demote { username } = cmd else {
        panic!("expected Demote variant");
    };
    assert_eq!(username, "bob");
}

#[test]
fn test_parse_demote_missing_username() {
    assert!(parse("/demote").is_err());
}

#[test]
fn test_parse_invited() {
    let cmd = parse("/invited").unwrap();
    assert!(matches!(cmd, Command::Invited));
}

#[test]
fn test_parse_uninvite() {
    let cmd = parse("/uninvite alice").unwrap();
    let Command::Uninvite { username } = cmd else {
        panic!("expected Uninvite variant");
    };
    assert_eq!(username, "alice");
}

#[test]
fn test_parse_uninvite_missing_args() {
    assert!(parse("/uninvite").is_err());
}

// Invites

#[test]
fn test_parse_invites() {
    let cmd = parse("/invites").unwrap();
    assert!(matches!(cmd, Command::Invites));
}

#[test]
fn test_parse_accept_no_arg() {
    let cmd = parse("/accept").unwrap();
    let Command::Accept { invite_id } = cmd else {
        panic!("expected Accept variant");
    };
    assert!(invite_id.is_none());
}

#[test]
fn test_parse_accept_with_id() {
    let test_uuid = uuid::Uuid::parse_str("550e8400-e29b-41d4-a716-446655440000").unwrap();
    let cmd = parse(&format!("/accept {test_uuid}")).unwrap();
    let Command::Accept { invite_id } = cmd else {
        panic!("expected Accept variant");
    };
    assert_eq!(invite_id, Some(test_uuid.as_u128()));
}

#[test]
fn test_parse_accept_invalid_id() {
    assert!(parse("/accept not-a-uuid").is_err());
}

#[test]
fn test_parse_decline() {
    let test_uuid = uuid::Uuid::parse_str("550e8400-e29b-41d4-a716-446655440000").unwrap();
    let cmd = parse(&format!("/decline {test_uuid}")).unwrap();
    let Command::Decline { invite_id } = cmd else {
        panic!("expected Decline variant");
    };
    assert_eq!(invite_id, test_uuid.as_u128());
}

#[test]
fn test_parse_decline_missing_id() {
    assert!(parse("/decline").is_err());
}

#[test]
fn test_parse_decline_invalid_id() {
    assert!(parse("/decline xyz").is_err());
}

// Registry validation

#[test]
fn test_registry_names_unique() {
    let mut seen = std::collections::HashSet::new();
    for spec in commands() {
        assert!(
            seen.insert(spec.name),
            "duplicate command name: {}",
            spec.name
        );
        for alias in spec.aliases {
            assert!(seen.insert(alias), "duplicate alias: {alias}");
        }
    }
}

#[test]
fn test_registry_commands_parseable() {
    for spec in commands() {
        let input = format!("/{}", spec.name);
        if let Err(ref error) = parse(&input) {
            let message = error.message();
            assert!(
                !message.contains("Unknown command"),
                "command /{} not recognized by parser",
                spec.name,
            );
        }
    }
}

#[test]
fn test_registry_aliases_parseable() {
    for spec in commands() {
        for alias in spec.aliases {
            let input = format!("/{alias}");
            if let Err(ref error) = parse(&input) {
                let message = error.message();
                assert!(
                    !message.contains("Unknown command"),
                    "alias /{alias} for /{} not recognized by parser",
                    spec.name,
                );
            }
        }
    }
}

#[test]
fn test_help_categories_non_empty() {
    let categories = help_categories();
    assert!(!categories.is_empty());
    for category in &categories {
        assert!(
            !category.commands.is_empty(),
            "empty category: {}",
            category.label,
        );
    }
}

#[test]
fn test_parse_visibility_public() {
    let cmd = parse("/visibility public").unwrap();
    let Command::Visibility { visibility } = cmd else {
        panic!("expected Visibility variant");
    };
    assert_eq!(visibility, Some("public".to_string()));
}

#[test]
fn test_parse_visibility_private() {
    let cmd = parse("/visibility private").unwrap();
    let Command::Visibility { visibility } = cmd else {
        panic!("expected Visibility variant");
    };
    assert_eq!(visibility, Some("private".to_string()));
}

#[test]
fn test_parse_visibility_invalid() {
    assert!(parse("/visibility open").is_err());
}

#[test]
fn test_parse_visibility_no_arg() {
    let cmd = parse("/visibility").unwrap();
    let Command::Visibility { visibility } = cmd else {
        panic!("expected Visibility variant");
    };
    assert!(visibility.is_none());
}

#[test]
fn test_parse_discover_no_pattern() {
    let cmd = parse("/discover").unwrap();
    let Command::Discover { pattern } = cmd else {
        panic!("expected Discover variant");
    };
    assert!(pattern.is_none());
}

#[test]
fn test_parse_discover_with_pattern() {
    let cmd = parse("/discover dev").unwrap();
    let Command::Discover { pattern } = cmd else {
        panic!("expected Discover variant");
    };
    assert_eq!(pattern, Some("dev".to_string()));
}

#[test]
fn test_parse_ban() {
    let cmd = parse("/ban alice").unwrap();
    let Command::Ban { username } = cmd else {
        panic!("expected Ban variant");
    };
    assert_eq!(username, "alice");
}

#[test]
fn test_parse_ban_missing_arg() {
    assert!(parse("/ban").is_err());
}

#[test]
fn test_parse_unban() {
    let cmd = parse("/unban alice").unwrap();
    let Command::Unban { username } = cmd else {
        panic!("expected Unban variant");
    };
    assert_eq!(username, "alice");
}

#[test]
fn test_parse_unban_missing_arg() {
    assert!(parse("/unban").is_err());
}

#[test]
fn test_parse_banned() {
    let cmd = parse("/banned").unwrap();
    assert!(matches!(cmd, Command::Banned));
}

#[test]
fn test_format_help_contains_all_commands() {
    let lines = format_help_lines();
    let text = lines.join("\n");
    for spec in commands() {
        assert!(
            text.contains(spec.usage),
            "help output missing usage for /{}",
            spec.name,
        );
    }
}

use conclave::operations::{commit_info, pair_welcomes, group_details, member_index_by_name, resolve_user_display_name, username_from_identifier, AppliedProposal, CommitEffectKind, MemberInfo, RoomInfo, RosterEntry};
use conclave::state::RoomMember;

fn test_uuid(n: u128) -> u128 {
    n
}

#[test]
fn test_room_info_display_name_alias() {
    let info = RoomInfo {
        group_id: test_uuid(1),
        group_name: "devs".into(),
        alias: Some("Dev Team".into()),
        members: vec![],
        mls_group_id: None,
        message_expiry_seconds: -1,
    };
    assert_eq!(info.display_name(), "Dev Team");
}

#[test]
fn test_room_info_display_name_group_name_fallback() {
    let info = RoomInfo {
        group_id: test_uuid(1),
        group_name: "devs".into(),
        alias: None,
        members: vec![],
        mls_group_id: None,
        message_expiry_seconds: -1,
    };
    assert_eq!(info.display_name(), "devs");
}

#[test]
fn test_room_info_display_name_empty_alias_falls_through() {
    let info = RoomInfo {
        group_id: test_uuid(1),
        group_name: "devs".into(),
        alias: Some(String::new()),
        members: vec![],
        mls_group_id: None,
        message_expiry_seconds: -1,
    };
    assert_eq!(info.display_name(), "devs");
}

#[test]
fn test_member_info_display_name_with_alias() {
    let info = MemberInfo {
        user_id: test_uuid(1),
        username: "alice".into(),
        alias: Some("Alice W.".into()),
        role: "admin".into(),
        signing_key_fingerprint: None,
    };
    assert_eq!(info.display_name(), "Alice W.");
}

#[test]
fn test_member_info_display_name_no_alias() {
    let info = MemberInfo {
        user_id: test_uuid(1),
        username: "alice".into(),
        alias: None,
        role: "member".into(),
        signing_key_fingerprint: None,
    };
    assert_eq!(info.display_name(), "alice");
}

#[test]
fn test_member_info_display_name_empty_alias() {
    let info = MemberInfo {
        user_id: test_uuid(1),
        username: "alice".into(),
        alias: Some(String::new()),
        role: "member".into(),
        signing_key_fingerprint: None,
    };
    assert_eq!(info.display_name(), "alice");
}

#[test]
fn test_member_info_to_room_member() {
    let info = MemberInfo {
        user_id: test_uuid(42),
        username: "bob".into(),
        alias: Some("Bobby".into()),
        role: "admin".into(),
        signing_key_fingerprint: Some("abcd1234".into()),
    };
    let member = info.to_room_member();
    assert_eq!(member.user_id, test_uuid(42));
    assert_eq!(member.username, "bob");
    assert_eq!(member.alias, Some("Bobby".into()));
    assert_eq!(member.role, "admin");
}

#[test]
fn test_resolve_user_display_name_found_with_alias() {
    let members = vec![RoomMember {
        user_id: test_uuid(1),
        username: "alice".into(),
        alias: Some("Alice W.".into()),
        role: "admin".into(),
        signing_key_fingerprint: None,
    }];
    assert_eq!(
        resolve_user_display_name(Some(test_uuid(1)), &members),
        "Alice W."
    );
}

#[test]
fn test_resolve_user_display_name_found_no_alias() {
    let members = vec![RoomMember {
        user_id: test_uuid(1),
        username: "alice".into(),
        alias: None,
        role: "member".into(),
        signing_key_fingerprint: None,
    }];
    assert_eq!(
        resolve_user_display_name(Some(test_uuid(1)), &members),
        "alice"
    );
}

#[test]
fn test_resolve_user_display_name_not_found() {
    let members = vec![RoomMember {
        user_id: test_uuid(1),
        username: "alice".into(),
        alias: None,
        role: "member".into(),
        signing_key_fingerprint: None,
    }];
    assert_eq!(
        resolve_user_display_name(Some(test_uuid(99)), &members),
        format!("user#{}", uuid::Uuid::from_u128(test_uuid(99)))
    );
}

#[test]
fn test_resolve_user_display_name_none() {
    assert_eq!(resolve_user_display_name(None, &[]), "<unknown>");
}

#[test]
fn credential_user_names() {
    assert_eq!(username_from_identifier(Some(b"alice".as_slice())), "alice");
    assert_eq!(username_from_identifier(Some([0x61u8, 0xff].as_slice())), "a\u{FFFD}");
    assert_eq!(username_from_identifier(None), "<unknown>");
}

fn entry(index: u32, name: Option<&str>) -> RosterEntry {
    RosterEntry { index, identifier: name.map(|n| n.as_bytes().to_vec()) }
}

#[test]
fn roster_lookup_and_details() {
    let roster = vec![entry(0, Some("alice")), entry(3, None), entry(5, Some("bob")), entry(7, Some("bob"))];
    assert_eq!(member_index_by_name(&roster, "bob"), Some(5));
    assert_eq!(member_index_by_name(&roster, "alice"), Some(0));
    assert_eq!(member_index_by_name(&roster, "<unknown>"), Some(3));
    assert_eq!(member_index_by_name(&roster, "carol"), None);
    let d = group_details(4, "CURVE25519_AES128".to_string(), 5, &roster);
    assert_eq!(d.epoch, 4);
    assert_eq!(d.own_index, 5);
    assert_eq!(d.member_count, 4);
    assert_eq!(d.cipher_suite, "CURVE25519_AES128");
    assert_eq!(d.members[1], (3, "<unknown>".to_string()));
    assert_eq!(d.members[3], (7, "bob".to_string()));
}

#[test]
fn commit_roster_changes() {
    let proposals = vec![
        AppliedProposal::Add(Some(b"carol".to_vec())),
        AppliedProposal::Remove(12),
        AppliedProposal::Other,
        AppliedProposal::Add(None),
    ];
    let c = commit_info(CommitEffectKind::NewEpoch, &proposals);
    assert_eq!(c.members_added, vec!["carol".to_string(), "<unknown>".to_string()]);
    assert_eq!(c.members_removed, vec!["#12".to_string()]);
    assert!(!c.self_removed);
    let c = commit_info(CommitEffectKind::Removed, &proposals);
    assert!(c.self_removed);
    assert_eq!(c.members_removed, vec!["#12".to_string()]);
    let c = commit_info(CommitEffectKind::Other, &proposals);
    assert!(c.members_added.is_empty() && c.members_removed.is_empty() && !c.self_removed);
}

#[test]
fn welcomes_follow_member_order() {
    let names = vec!["bob".to_string(), "carol".to_string(), "dave".to_string()];
    let pairs = pair_welcomes(&names, vec![vec![1u8], vec![2u8, 3]]);
    assert_eq!(pairs, vec![("bob".to_string(), vec![1u8]), ("carol".to_string(), vec![2u8, 3])]);
    assert!(pair_welcomes(&names, Vec::new()).is_empty());
}

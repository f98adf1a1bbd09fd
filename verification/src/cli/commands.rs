//! The decisions behind the commands of the terminal interface: which part
//! of the client handles a command, what a command needs before it runs,
//! and what commands that only touch local state do to it. Talking to the
//! server and to the MLS layer is left to the caller.

use std::collections::HashMap;

use vstd::prelude::*;

use crate::cli::session::NotificationMethod;
use crate::cli::state::{active_messages_spec, resolvable, resolves_to, AppState};
use crate::command::Command;
use crate::operations::{MemberInfo, RoomInfo};
use crate::state::{RoomMember, VerificationStatus};
use crate::error::{error_message_spec, Error};
use crate::state::{find_member, member_display_name_spec, room_display_name_spec, DisplayMessage, Room};
use crate::ids::{uuid_text_spec, uuid_to_string};
use crate::cli::events::system_text;
use crate::duration::{compute_effective, compute_effective_spec, format_duration, format_duration_spec};
use crate::text::{chars_of, decimal_spec, owned, push_all, push_str, str_eq, string_from_chars, u64_to_chars};

verus! {

broadcast use vstd::std_specs::hash::group_hash_axioms;

/// The part of the client that carries out a command.
#[derive(Debug, Clone, Copy, PartialEq, Eq, Structural)]
pub enum CommandGroup {
    Account,
    Room,
    Member,
    Invite,
    Messaging,
    Profile,
}

/// Which part of the client carries out each command.
pub open spec fn command_group_spec(cmd: Command) -> CommandGroup {
    match cmd {
        Command::Register { .. } | Command::Login { .. } | Command::Logout | Command::Expunge {
            ..
        } => CommandGroup::Account,
        Command::Create { .. } | Command::Rooms | Command::Join { .. } | Command::Close
        | Command::Part | Command::Unread | Command::Info | Command::Expire { .. }
        | Command::Delete => CommandGroup::Room,
        Command::Invite { .. } | Command::Kick { .. } | Command::Promote { .. }
        | Command::Demote { .. } | Command::Admins | Command::Invited | Command::Uninvite { .. }
        | Command::Members => CommandGroup::Member,
        Command::Invites | Command::Accept { .. } | Command::Decline { .. } => CommandGroup::Invite,
        Command::Message { .. } | Command::Rotate => CommandGroup::Messaging,
        _ => CommandGroup::Profile,
    }
}

/// The part of the client that carries out a command.
pub fn command_group(cmd: &Command) -> (r: CommandGroup)
    ensures
        r == command_group_spec(*cmd),
{
    match cmd {
        Command::Register { .. } | Command::Login { .. } | Command::Logout | Command::Expunge {
            ..
        } => CommandGroup::Account,
        Command::Create { .. } | Command::Rooms | Command::Join { .. } | Command::Close
        | Command::Part | Command::Unread | Command::Info | Command::Expire { .. }
        | Command::Delete => CommandGroup::Room,
        Command::Invite { .. } | Command::Kick { .. } | Command::Promote { .. }
        | Command::Demote { .. } | Command::Admins | Command::Invited | Command::Uninvite { .. }
        | Command::Members => CommandGroup::Member,
        Command::Invites | Command::Accept { .. } | Command::Decline { .. } => CommandGroup::Invite,
        Command::Message { .. } | Command::Rotate => CommandGroup::Messaging,
        _ => CommandGroup::Profile,
    }
}

/// The message of commands that need a login.
pub open spec fn not_logged_in_msg() -> Seq<char> {
    "not logged in"@
}

/// The message of commands that need an active room.
pub open spec fn no_active_room_msg() -> Seq<char> {
    "no active room -- use /join first"@
}

/// The message of commands that need the MLS group of the active room.
pub open spec fn no_mapping_msg() -> Seq<char> {
    "group mapping not found"@
}

/// The ID of the logged-in user.
pub fn require_user_id(state: &AppState) -> (r: Result<u128, Error>)
    ensures
        match state.user_id {
            Some(id) => r == Ok::<u128, Error>(id),
            None => r matches Err(e) && e is Other && error_message_spec(e) == not_logged_in_msg(),
        },
{
    match state.user_id {
        Some(id) => Ok(id),
        None => Err(Error::Other(owned("not logged in"))),
    }
}

/// The active room's group ID.
pub fn require_active_room(state: &AppState) -> (r: Result<u128, Error>)
    ensures
        match state.active_room {
            Some(g) => r == Ok::<u128, Error>(g),
            None => r matches Err(e) && e is Other && error_message_spec(e)
                == no_active_room_msg(),
        },
{
    match state.active_room {
        Some(g) => Ok(g),
        None => Err(Error::Other(owned("no active room -- use /join first"))),
    }
}

/// The MLS group ID of a group.
pub fn require_mls_group(state: &AppState, group_id: u128) -> (r: Result<String, Error>)
    ensures
        state.group_mapping@.contains_key(group_id) ==> (r matches Ok(m) && m@
            == state.group_mapping@[group_id]@),
        !state.group_mapping@.contains_key(group_id) ==> (r matches Err(e) && e is Other
            && error_message_spec(e) == no_mapping_msg()),
{
    match state.group_mapping.get(&group_id) {
        Some(m) => Ok(owned(m.as_str())),
        None => Err(Error::Other(owned("group mapping not found"))),
    }
}

/// The user ID of the first member of a group with the given user name.
pub open spec fn member_id_by_name_spec(
    rooms: Map<u128, Room>,
    group_id: u128,
    username: Seq<char>,
) -> Option<u128> {
    if rooms.contains_key(group_id) && exists|i: int|
        0 <= i < rooms[group_id].members@.len()
            && (#[trigger] rooms[group_id].members@[i]).username@ == username {
        let ms = rooms[group_id].members@;
        Some(
            ms[choose|i: int|
                0 <= i < ms.len() && (#[trigger] ms[i]).username@ == username && forall|j: int|
                    0 <= j < i ==> (#[trigger] ms[j]).username@ != username].user_id,
        )
    } else {
        None
    }
}

/// The message for a user name that is not in the active room.
pub open spec fn not_member_msg(username: Seq<char>) -> Seq<char> {
    "user '"@ + username + "' not found in the room member list"@
}

/// The user ID of the member of a group with the given user name.
pub fn member_id_by_name(state: &AppState, group_id: u128, username: &str) -> (r: Result<
    u128,
    Error,
>)
    ensures
        match member_id_by_name_spec(state.rooms@, group_id, username@) {
            Some(id) => r == Ok::<u128, Error>(id),
            None => r matches Err(e) && e is Other && error_message_spec(e) == not_member_msg(
                username@,
            ),
        },
{
    if let Some(room) = state.rooms.get(&group_id) {
        let ghost ms = room.members@;
        let mut i: usize = 0;
        while i < room.members.len()
            invariant
                i <= ms.len(),
                ms == room.members@,
                state.rooms@.contains_key(group_id),
                *room == state.rooms@[group_id],
                forall|j: int| 0 <= j < i ==> (#[trigger] ms[j]).username@ != username@,
            decreases ms.len() - i,
        {
            if str_eq(room.members[i].username.as_str(), username) {
                proof {
                    assert(ms[i as int].username@ == username@);
                    let k = choose|k: int|
                        0 <= k < ms.len() && (#[trigger] ms[k]).username@ == username@
                            && forall|j: int| 0 <= j < k ==> (#[trigger] ms[j]).username@ != username@;
                    if k < i {
                        assert(ms[k].username@ != username@);
                    } else if k > i {
                        assert(ms[i as int].username@ != username@);
                    }
                }
                return Ok(room.members[i].user_id);
            }
            i = i + 1;
        }
    }
    let mut out: Vec<char> = Vec::new();
    push_str(&mut out, "user '");
    push_str(&mut out, username);
    push_str(&mut out, "' not found in the room member list");
    Err(Error::Other(string_from_chars(out.as_slice())))
}

/// The display name of a group, or nothing when it is unknown.
pub open spec fn room_name_or_empty(rooms: Map<u128, Room>, group_id: u128) -> Seq<char> {
    if rooms.contains_key(group_id) {
        room_display_name_spec(rooms[group_id])
    } else {
        Seq::empty()
    }
}

pub(crate) fn room_name(rooms: &HashMap<u128, Room>, group_id: u128) -> (r: String)
    ensures
        r@ == room_name_or_empty(rooms@, group_id),
{
    match rooms.get(&group_id) {
        Some(room) => room.display_name(),
        None => String::new(),
    }
}

/// Marks every message of a group as read: its last read sequence number
/// becomes its last seen one.
pub fn mark_read(rooms: &mut HashMap<u128, Room>, group_id: u128)
    ensures
        final(rooms)@.dom() == old(rooms)@.dom(),
        forall|g: u128|
            #[trigger] old(rooms)@.contains_key(g) && g != group_id ==> final(rooms)@[g] == old(
                rooms,
            )@[g],
        old(rooms)@.contains_key(group_id) ==> final(rooms)@[group_id] == (Room {
            last_read_seq: old(rooms)@[group_id].last_seen_seq,
            ..old(rooms)@[group_id]
        }),
{
    let ghost before = rooms@;
    match rooms.remove(&group_id) {
        Some(room) => {
            let Room {
                server_group_id,
                group_name,
                alias,
                members,
                last_seen_seq,
                last_read_seq: _,
                message_expiry_seconds,
            } = room;
            rooms.insert(
                group_id,
                Room {
                    server_group_id,
                    group_name,
                    alias,
                    members,
                    last_seen_seq,
                    last_read_seq: last_seen_seq,
                    message_expiry_seconds,
                },
            );
            assert(rooms@.dom() =~= before.dom());
        },
        None => {},
    }
}

/// Switches the view to the room a name picks out (see
/// `AppState::resolve_room`) and marks its messages as read; returns the
/// message to show and the group switched to.
pub fn switch_room(state: &mut AppState, target: &str) -> (r: (DisplayMessage, Option<u128>))
    ensures
        r.0.is_system,
        r.1 is None <==> !resolvable(old(state).rooms@, target@),
        match r.1 {
            Some(g) => {
                &&& exists|k: u128|
                    #[trigger] resolves_to(old(state).rooms@, target@, k)
                        && old(state).rooms@[k].server_group_id == g
                &&& final(state).active_room == Some(g)
                &&& final(state).scroll_offset == 0
                &&& r.0.content@ == "Switched to #"@ + room_name_or_empty(old(state).rooms@, g)
                &&& final(state).rooms@.dom() == old(state).rooms@.dom()
                &&& forall|k: u128|
                    #[trigger] old(state).rooms@.contains_key(k) && k != g ==> final(state).rooms@[k]
                        == old(state).rooms@[k]
                &&& old(state).rooms@.contains_key(g) ==> final(state).rooms@[g] == (Room {
                    last_read_seq: old(state).rooms@[g].last_seen_seq,
                    ..old(state).rooms@[g]
                })
            },
            None => {
                &&& final(state).active_room == old(state).active_room
                &&& final(state).scroll_offset == old(state).scroll_offset
                &&& final(state).rooms == old(state).rooms
                &&& r.0.content@ == "Unknown room '"@ + target@
                    + "'. Use /rooms to list available rooms."@
            },
        },
        final(state).group_mapping == old(state).group_mapping,
        final(state).room_messages == old(state).room_messages,
        final(state).system_messages == old(state).system_messages,
        final(state).verification_status == old(state).verification_status,
        final(state).user_id == old(state).user_id,
        final(state).username == old(state).username,
        final(state).logged_in == old(state).logged_in,
{
    let resolved: Option<u128> = match state.resolve_room(target) {
        Some(room) => Some(room.server_group_id),
        None => None,
    };
    match resolved {
        Some(g) => {
            let name = room_name(&state.rooms, g);
            state.active_room = Some(g);
            state.scroll_offset = 0;
            mark_read(&mut state.rooms, g);
            let parts: Vec<&str> = vec!["Switched to #", name.as_str()];
            let m = system_text(&parts);
            proof {
                reveal_with_fuel(Seq::fold_left, 3);
                assert(parts@.map_values(|p: &str| p@) =~= seq!["Switched to #"@, name@]);
            }
            (m, Some(g))
        },
        None => {
            let parts: Vec<&str> = vec![
                "Unknown room '",
                target,
                "'. Use /rooms to list available rooms.",
            ];
            let m = system_text(&parts);
            proof {
                reveal_with_fuel(Seq::fold_left, 4);
                assert(parts@.map_values(|p: &str| p@) =~= seq![
                    "Unknown room '"@,
                    target@,
                    "'. Use /rooms to list available rooms."@,
                ]);
            }
            (m, None)
        },
    }
}

/// Leaves the view of the active room without leaving the group.
pub fn close_room(state: &mut AppState) -> (m: DisplayMessage)
    ensures
        m.is_system,
        final(state).active_room is None,
        match old(state).active_room {
            Some(g) => {
                &&& final(state).scroll_offset == 0
                &&& m.content@ == "Switched away from #"@ + room_name_or_empty(
                    old(state).rooms@,
                    g,
                ) + " (use /part to leave the group)"@
            },
            None => {
                &&& final(state).scroll_offset == old(state).scroll_offset
                &&& m.content@ == "No active room."@
            },
        },
        final(state).rooms == old(state).rooms,
        final(state).group_mapping == old(state).group_mapping,
        final(state).room_messages == old(state).room_messages,
        final(state).system_messages == old(state).system_messages,
        final(state).verification_status == old(state).verification_status,
        final(state).user_id == old(state).user_id,
        final(state).username == old(state).username,
        final(state).logged_in == old(state).logged_in,
{
    match state.active_room {
        Some(g) => {
            state.active_room = None;
            let name = room_name(&state.rooms, g);
            state.scroll_offset = 0;
            let parts: Vec<&str> = vec![
                "Switched away from #",
                name.as_str(),
                " (use /part to leave the group)",
            ];
            let m = system_text(&parts);
            proof {
                reveal_with_fuel(Seq::fold_left, 4);
                assert(parts@.map_values(|p: &str| p@) =~= seq![
                    "Switched away from #"@,
                    name@,
                    " (use /part to leave the group)"@,
                ]);
            }
            m
        },
        None => DisplayMessage::system("No active room."),
    }
}

/// Forgets the session after logging out or deleting the account: no user,
/// no rooms, no group mapping, no active room.
pub fn clear_login(state: &mut AppState)
    ensures
        !final(state).logged_in,
        final(state).username is None,
        final(state).user_id is None,
        final(state).active_room is None,
        final(state).rooms@ == Map::<u128, Room>::empty(),
        final(state).group_mapping@ == Map::<u128, String>::empty(),
        final(state).room_messages == old(state).room_messages,
{
    state.logged_in = false;
    state.username = None;
    state.user_id = None;
    state.active_room = None;
    state.rooms = HashMap::new();
    state.group_mapping = HashMap::new();
}

/// After leaving a group: forgets its room and mapping and shows no room.
pub fn left_room(state: &mut AppState, group_id: u128)
    ensures
        final(state).rooms@ == old(state).rooms@.remove(group_id),
        final(state).group_mapping@ == old(state).group_mapping@.remove(group_id),
        final(state).active_room is None,
        final(state).scroll_offset == 0,
        final(state).room_messages == old(state).room_messages,
{
    state.group_mapping.remove(&group_id);
    state.rooms.remove(&group_id);
    state.active_room = None;
    state.scroll_offset = 0;
}

/// After deleting a group: as after leaving it, and its messages are
/// dropped too.
pub fn deleted_room(state: &mut AppState, group_id: u128)
    ensures
        final(state).rooms@ == old(state).rooms@.remove(group_id),
        final(state).group_mapping@ == old(state).group_mapping@.remove(group_id),
        final(state).room_messages@ == old(state).room_messages@.remove(group_id),
        final(state).active_room is None,
        final(state).scroll_offset == 0,
{
    left_room(state, group_id);
    state.room_messages.remove(&group_id);
}

/// The unread count of a room: messages fetched but not viewed, plus those
/// the server holds beyond the last fetched one.
pub open spec fn unread_total(last_seen: u64, last_read: u64, on_server: u64) -> int {
    (if last_seen < last_read {
        0
    } else {
        last_seen - last_read
    }) + on_server
}

/// The line for a room with unread messages, or none when there are none.
pub open spec fn unread_line_spec(name: Seq<char>, total: nat) -> Option<Seq<char>> {
    if total == 0 {
        None
    } else {
        Some(
            "  #"@ + name + ": "@ + decimal_spec(total) + " new message"@ + (if total == 1 {
                ""@
            } else {
                "s"@
            }),
        )
    }
}

/// The unread line of a room, given how many newer messages the server
/// holds.
pub fn unread_line(room: &Room, on_server: u64) -> (r: Option<String>)
    requires
        unread_total(room.last_seen_seq, room.last_read_seq, on_server) <= u64::MAX,
    ensures
        match (r, unread_line_spec(
            room_display_name_spec(*room),
            unread_total(room.last_seen_seq, room.last_read_seq, on_server) as nat,
        )) {
            (Some(a), Some(b)) => a@ == b,
            (None, None) => true,
            _ => false,
        },
{
    let local = room.last_seen_seq.saturating_sub(room.last_read_seq);
    let total = local + on_server;
    if total == 0 {
        return None;
    }
    let name = room.display_name();
    let mut out: Vec<char> = Vec::new();
    push_str(&mut out, "  #");
    push_str(&mut out, name.as_str());
    push_str(&mut out, ": ");
    let digits = u64_to_chars(total);
    push_all(&mut out, digits.as_slice());
    push_str(&mut out, " new message");
    if total != 1 {
        push_str(&mut out, "s");
    }
    proof {
        if total == 1 {
            reveal_strlit("");
            assert(out@ =~= "  #"@ + name@ + ": "@ + decimal_spec(total as nat) + " new message"@
                + ""@);
        }
    }
    Some(string_from_chars(out.as_slice()))
}

/// The unread count of a room adds the messages fetched but not viewed
/// (none when the read mark is ahead) and those still on the server: with
/// `k` newer messages on the server the count grows by exactly `k`, and the
/// line shows that sum, in the singular only for one message.
pub proof fn lemma_unread_count_adds(room: Room, on_server: u64)
    ensures
        unread_total(room.last_seen_seq, room.last_read_seq, on_server) == unread_total(
            room.last_seen_seq,
            room.last_read_seq,
            0,
        ) + on_server,
        room.last_read_seq <= room.last_seen_seq ==> unread_total(
            room.last_seen_seq,
            room.last_read_seq,
            0,
        ) == room.last_seen_seq - room.last_read_seq,
        room.last_seen_seq <= room.last_read_seq ==> unread_total(
            room.last_seen_seq,
            room.last_read_seq,
            0,
        ) == 0,
        ({
            let n: int = (if room.last_seen_seq >= room.last_read_seq {
                room.last_seen_seq - room.last_read_seq
            } else {
                0
            }) + on_server;
            unread_line_spec(
                room_display_name_spec(room),
                unread_total(room.last_seen_seq, room.last_read_seq, on_server) as nat,
            ) == if n == 0 {
                None::<Seq<char>>
            } else {
                Some(
                    "  #"@ + room_display_name_spec(room) + ": "@ + decimal_spec(n as nat)
                        + " new message"@ + (if n == 1 {
                        ""@
                    } else {
                        "s"@
                    }),
                )
            }
        }),
{
}

/// The lines that show a room's message expiry: the server's retention, the
/// room's own expiry, and the one in effect.
pub open spec fn expiry_lines_spec(server: i64, group: i64) -> Seq<Seq<char>> {
    seq![
        "Server retention: "@ + format_duration_spec(server),
        "Room expiry: "@ + format_duration_spec(group),
        "Effective: "@ + format_duration_spec(compute_effective_spec(server, group)),
    ]
}

/// The lines that show a room's message expiry.
pub fn expiry_lines(server_retention_seconds: i64, group_expiry_seconds: i64) -> (r: Vec<String>)
    ensures
        crate::command::strings_view(r@) == expiry_lines_spec(
            server_retention_seconds,
            group_expiry_seconds,
        ),
{
    let s = format_duration(server_retention_seconds);
    let g = format_duration(group_expiry_seconds);
    let e = format_duration(compute_effective(server_retention_seconds, group_expiry_seconds));
    let mut a: Vec<char> = Vec::new();
    push_str(&mut a, "Server retention: ");
    push_str(&mut a, s.as_str());
    let mut b: Vec<char> = Vec::new();
    push_str(&mut b, "Room expiry: ");
    push_str(&mut b, g.as_str());
    let mut c: Vec<char> = Vec::new();
    push_str(&mut c, "Effective: ");
    push_str(&mut c, e.as_str());
    let r = vec![
        string_from_chars(a.as_slice()),
        string_from_chars(b.as_slice()),
        string_from_chars(c.as_slice()),
    ];
    assert(crate::command::strings_view(r@) =~= expiry_lines_spec(
        server_retention_seconds,
        group_expiry_seconds,
    ));
    r
}

/// How an admin is listed: the alias with the user name after it, or the
/// user name alone when there is no alias.
pub open spec fn admin_label_spec(alias: Seq<char>, username: Seq<char>) -> Seq<char> {
    if alias.len() == 0 {
        username
    } else {
        alias + " (@"@ + username + ")"@
    }
}

/// How an admin is listed.
pub fn admin_label(alias: &str, username: &str) -> (r: String)
    ensures
        r@ == admin_label_spec(alias@, username@),
{
    if alias.is_empty() {
        return owned(username);
    }
    let mut out: Vec<char> = Vec::new();
    push_str(&mut out, alias);
    push_str(&mut out, " (@");
    push_str(&mut out, username);
    push_str(&mut out, ")");
    string_from_chars(out.as_slice())
}

/// The group IDs of the rooms the server lists.
pub open spec fn info_ids(infos: Seq<RoomInfo>) -> Set<u128> {
    Set::new(|g: u128| exists|i: int| 0 <= i < infos.len() && (#[trigger] infos[i]).group_id == g)
}

/// The rooms that the client knows and the server no longer lists.
pub open spec fn stale_ids(rooms: Map<u128, Room>, infos: Seq<RoomInfo>) -> Set<u128> {
    rooms.dom().difference(info_ids(infos))
}

/// A room member as the server described it.
pub open spec fn member_from_info(m: RoomMember, info: MemberInfo) -> bool {
    &&& m.user_id == info.user_id
    &&& m.username@ == info.username@
    &&& m.role@ == info.role@
    &&& crate::command::opt_view(m.alias) == crate::command::opt_view(info.alias)
    &&& crate::command::opt_view(m.signing_key_fingerprint) == crate::command::opt_view(
        info.signing_key_fingerprint,
    )
}

/// A room as the server described it, with the sequence numbers it had
/// before (zero for a room that is new).
pub open spec fn room_from_info(r: Room, info: RoomInfo, seen: u64, read: u64) -> bool {
    &&& r.server_group_id == info.group_id
    &&& r.group_name@ == info.group_name@
    &&& crate::command::opt_view(r.alias) == crate::command::opt_view(info.alias)
    &&& r.members@.len() == info.members@.len()
    &&& forall|k: int|
        0 <= k < r.members@.len() ==> member_from_info(#[trigger] r.members@[k], info.members@[k])
    &&& r.last_seen_seq == seen
    &&& r.last_read_seq == read
    &&& r.message_expiry_seconds == info.message_expiry_seconds
}

fn copy_opt(o: &Option<String>) -> (r: Option<String>)
    ensures
        crate::command::opt_view(r) == crate::command::opt_view(*o),
{
    match o {
        Some(s) => Some(owned(s.as_str())),
        None => None,
    }
}

fn room_of(info: &RoomInfo, seen: u64, read: u64) -> (r: Room)
    ensures
        room_from_info(r, *info, seen, read),
{
    let mut members: Vec<RoomMember> = Vec::new();
    let mut k: usize = 0;
    while k < info.members.len()
        invariant
            k <= info.members@.len(),
            members@.len() == k,
            forall|j: int|
                0 <= j < k ==> member_from_info(#[trigger] members@[j], info.members@[j]),
        decreases info.members@.len() - k,
    {
        let m = info.members[k].to_room_member();
        proof {
            assert(crate::command::opt_view(m.alias) == crate::command::opt_view(
                info.members@[k as int].alias,
            ));
        }
        members.push(m);
        k = k + 1;
    }
    Room {
        server_group_id: info.group_id,
        group_name: owned(info.group_name.as_str()),
        alias: copy_opt(&info.alias),
        members,
        last_seen_seq: seen,
        last_read_seq: read,
        message_expiry_seconds: info.message_expiry_seconds,
    }
}

proof fn lemma_take_to_set(s: Seq<u128>, k: int)
    requires
        0 <= k < s.len(),
    ensures
        s.take(k + 1).to_set() == s.take(k).to_set().insert(s[k]),
{
    assert forall|x: u128| #[trigger] s.take(k + 1).to_set().contains(x) <==> s.take(k).to_set().insert(
        s[k],
    ).contains(x) by {
        if s.take(k + 1).contains(x) {
            let t = choose|t: int| 0 <= t < k + 1 && #[trigger] s.take(k + 1)[t] == x;
            if t < k {
                assert(s.take(k)[t] == x);
            }
        }
        if s.take(k).contains(x) {
            let t = choose|t: int| 0 <= t < k && #[trigger] s.take(k)[t] == x;
            assert(s.take(k + 1)[t] == x);
        }
        if x == s[k] {
            assert(s.take(k + 1)[k] == x);
        }
    }
    assert(s.take(k + 1).to_set() =~= s.take(k).to_set().insert(s[k]));
}

/// Brings the rooms up to date with the list the server gave: every listed
/// room is stored as listed, keeping the sequence numbers it had; rooms the
/// server no longer lists are dropped, with their group mappings, and the
/// view leaves the active room when it is one of them.
pub fn merge_rooms(state: &mut AppState, infos: &[RoomInfo])
    ensures
        final(state).rooms@.dom() == info_ids(infos@),
        forall|g: u128|
            #[trigger] final(state).rooms@.contains_key(g) ==> exists|i: int|
                0 <= i < infos@.len() && infos@[i].group_id == g && (forall|t: int|
                    i < t < infos@.len() ==> (#[trigger] infos@[t]).group_id != g) && room_from_info(
                    final(state).rooms@[g],
                    infos@[i],
                    if old(state).rooms@.contains_key(g) {
                        old(state).rooms@[g].last_seen_seq
                    } else {
                        0
                    },
                    if old(state).rooms@.contains_key(g) {
                        old(state).rooms@[g].last_read_seq
                    } else {
                        0
                    },
                ),
        final(state).group_mapping@ == old(state).group_mapping@.remove_keys(
            stale_ids(old(state).rooms@, infos@),
        ),
        final(state).active_room == match old(state).active_room {
            Some(a) => if stale_ids(old(state).rooms@, infos@).contains(a) {
                None
            } else {
                Some(a)
            },
            None => None,
        },
        final(state).room_messages == old(state).room_messages,
        final(state).username == old(state).username,
        final(state).user_id == old(state).user_id,
        final(state).logged_in == old(state).logged_in,
        final(state).connection_status == old(state).connection_status,
        final(state).scroll_offset == old(state).scroll_offset,
        final(state).terminal_rows == old(state).terminal_rows,
        final(state).terminal_cols == old(state).terminal_cols,
        final(state).verification_status == old(state).verification_status,
        final(state).system_messages == old(state).system_messages,
        final(state).show_verified_indicator == old(state).show_verified_indicator,
        final(state).input_mode == old(state).input_mode,
{
    let ghost old_rooms = state.rooms@;
    let old_keys = crate::state::keys_of(&state.rooms);
    let mut i: usize = 0;
    while i < infos.len()
        invariant
            i <= infos@.len(),
            state.rooms@.dom() == old_rooms.dom().union(info_ids(infos@.take(i as int))),
            forall|g: u128|
                #[trigger] state.rooms@.contains_key(g) && !old_rooms.contains_key(g) ==> {
                    &&& state.rooms@[g].last_seen_seq == 0
                    &&& state.rooms@[g].last_read_seq == 0
                },
            forall|g: u128|
                #[trigger] state.rooms@.contains_key(g) && old_rooms.contains_key(g) ==> {
                    &&& state.rooms@[g].last_seen_seq == old_rooms[g].last_seen_seq
                    &&& state.rooms@[g].last_read_seq == old_rooms[g].last_read_seq
                },
            forall|g: u128|
                #[trigger] info_ids(infos@.take(i as int)).contains(g) ==> exists|j: int|
                    0 <= j < i && infos@[j].group_id == g && (forall|t: int|
                        j < t < i ==> (#[trigger] infos@[t]).group_id != g) && room_from_info(
                        state.rooms@[g],
                        infos@[j],
                        state.rooms@[g].last_seen_seq,
                        state.rooms@[g].last_read_seq,
                    ),
            state.group_mapping == old(state).group_mapping,
            state.active_room == old(state).active_room,
            state.room_messages == old(state).room_messages,
            state.username == old(state).username,
            state.user_id == old(state).user_id,
            state.logged_in == old(state).logged_in,
            state.connection_status == old(state).connection_status,
            state.scroll_offset == old(state).scroll_offset,
            state.terminal_rows == old(state).terminal_rows,
            state.terminal_cols == old(state).terminal_cols,
            state.verification_status == old(state).verification_status,
            state.system_messages == old(state).system_messages,
            state.show_verified_indicator == old(state).show_verified_indicator,
            state.input_mode == old(state).input_mode,
        decreases infos@.len() - i,
    {
        let info = &infos[i];
        let (seen, read) = match state.rooms.get(&info.group_id) {
            Some(r) => (r.last_seen_seq, r.last_read_seq),
            None => (0u64, 0u64),
        };
        let room = room_of(info, seen, read);
        let ghost before = state.rooms@;
        state.rooms.insert(info.group_id, room);
        proof {
            assert(info_ids(infos@.take(i + 1)) =~= info_ids(infos@.take(i as int)).insert(
                info.group_id,
            )) by {
                assert forall|g: u128| #[trigger] info_ids(infos@.take(i + 1)).contains(g) implies info_ids(
                    infos@.take(i as int),
                ).insert(info.group_id).contains(g) by {
                    let j = choose|j: int|
                        0 <= j < infos@.take(i + 1).len() && (#[trigger] infos@.take(i + 1)[j]).group_id
                            == g;
                    if j < i {
                        assert(infos@.take(i as int)[j] == infos@.take(i + 1)[j]);
                    }
                }
                assert forall|g: u128| #[trigger] info_ids(infos@.take(i as int)).insert(info.group_id).contains(g) implies info_ids(
                    infos@.take(i + 1),
                ).contains(g) by {
                    if g == info.group_id {
                        assert(infos@.take(i + 1)[i as int] == infos@[i as int]);
                    } else {
                        let j = choose|j: int|
                            0 <= j < infos@.take(i as int).len() && (#[trigger] infos@.take(
                                i as int,
                            )[j]).group_id == g;
                        assert(infos@.take(i + 1)[j] == infos@.take(i as int)[j]);
                    }
                }
            }
            assert(state.rooms@.dom() =~= old_rooms.dom().union(info_ids(infos@.take(i + 1))));
            assert forall|g: u128| #[trigger] info_ids(infos@.take(i + 1)).contains(g) implies exists|j: int|
                0 <= j < i + 1 && infos@[j].group_id == g && (forall|t: int|
                    j < t < i + 1 ==> (#[trigger] infos@[t]).group_id != g) && room_from_info(
                    state.rooms@[g],
                    infos@[j],
                    state.rooms@[g].last_seen_seq,
                    state.rooms@[g].last_read_seq,
                ) by {
                if g == info.group_id {
                    assert(infos@[i as int].group_id == g);
                } else {
                    assert(info_ids(infos@.take(i as int)).contains(g));
                    assert(state.rooms@[g] == before[g]);
                    let j = choose|j: int|
                        0 <= j < i && infos@[j].group_id == g && (forall|t: int|
                            j < t < i ==> (#[trigger] infos@[t]).group_id != g) && room_from_info(
                            before[g],
                            infos@[j],
                            before[g].last_seen_seq,
                            before[g].last_read_seq,
                        );
                    assert(infos@[i as int].group_id != g);
                }
            }
        }
        i = i + 1;
    }
    proof {
        assert(infos@.take(infos@.len() as int) =~= infos@);
    }
    // Drop the rooms that the server no longer lists.
    let ghost mid_rooms = state.rooms@;
    let ghost stale = stale_ids(old_rooms, infos@);
    let mut k: usize = 0;
    while k < old_keys.len()
        invariant
            k <= old_keys@.len(),
            old_keys@.to_set() == old_rooms.dom(),
            old_keys@.no_duplicates(),
            stale == stale_ids(old_rooms, infos@),
            mid_rooms.dom() == old_rooms.dom().union(info_ids(infos@)),
            state.rooms@ == mid_rooms.remove_keys(stale.intersect(old_keys@.take(k as int).to_set())),
            state.group_mapping@ == old(state).group_mapping@.remove_keys(
                stale.intersect(old_keys@.take(k as int).to_set()),
            ),
            state.active_room == match old(state).active_room {
                Some(a) => if stale.intersect(old_keys@.take(k as int).to_set()).contains(a) {
                    None
                } else {
                    Some(a)
                },
                None => None,
            },
            state.room_messages == old(state).room_messages,
            state.username == old(state).username,
            state.user_id == old(state).user_id,
            state.logged_in == old(state).logged_in,
            state.connection_status == old(state).connection_status,
            state.scroll_offset == old(state).scroll_offset,
            state.terminal_rows == old(state).terminal_rows,
            state.terminal_cols == old(state).terminal_cols,
            state.verification_status == old(state).verification_status,
            state.system_messages == old(state).system_messages,
            state.show_verified_indicator == old(state).show_verified_indicator,
            state.input_mode == old(state).input_mode,
        decreases old_keys@.len() - k,
    {
        let g = old_keys[k];
        let ghost removed_before = stale.intersect(old_keys@.take(k as int).to_set());
        let mut listed = false;
        let mut j: usize = 0;
        while j < infos.len()
            invariant
                j <= infos@.len(),
                listed == exists|t: int| 0 <= t < j && (#[trigger] infos@[t]).group_id == g,
            decreases infos@.len() - j,
        {
            if infos[j].group_id == g {
                listed = true;
            }
            j = j + 1;
        }
        proof {
            assert(old_keys@.take(k + 1) =~= old_keys@.take(k as int).push(g));
            lemma_take_to_set(old_keys@, k as int);
            assert(old_keys@.contains(g));
            assert(old_rooms.dom().contains(g));
        }
        if !listed {
            state.rooms.remove(&g);
            state.group_mapping.remove(&g);
            if state.active_room == Some(g) {
                state.active_room = None;
            }
            proof {
                assert(stale.contains(g));
                assert(stale.intersect(old_keys@.take(k + 1).to_set()) =~= removed_before.insert(g));
                assert(state.rooms@ =~= mid_rooms.remove_keys(removed_before.insert(g)));
                assert(state.group_mapping@ =~= old(state).group_mapping@.remove_keys(
                    removed_before.insert(g),
                ));
            }
        } else {
            proof {
                assert(!stale.contains(g));
                assert(stale.intersect(old_keys@.take(k + 1).to_set()) =~= removed_before);
            }
        }
        k = k + 1;
    }
    proof {
        assert(old_keys@.take(old_keys@.len() as int) =~= old_keys@);
        assert(stale.intersect(old_keys@.to_set()) =~= stale);
        assert(state.rooms@.dom() =~= info_ids(infos@));
    }
}

/// The trust statuses after the rooms were loaded, taking the members in
/// order: this user's own key is trusted outright; a member with a
/// fingerprint gets the status the fingerprint store gave for it (`looked`,
/// one entry per member); a member without one is left as they were.
pub open spec fn trust_after(
    m: Map<u128, VerificationStatus>,
    own: Option<u128>,
    members: Seq<RoomMember>,
    looked: Seq<VerificationStatus>,
) -> Map<u128, VerificationStatus>
    decreases members.len(),
{
    if members.len() == 0 {
        m
    } else {
        let prev = trust_after(m, own, members.drop_last(), looked.drop_last());
        let x = members.last();
        if own == Some(x.user_id) {
            prev.insert(x.user_id, VerificationStatus::Verified)
        } else if x.signing_key_fingerprint is Some {
            prev.insert(x.user_id, looked.last())
        } else {
            prev
        }
    }
}

/// Refreshes the trust status of the members of the loaded rooms, given in
/// order with the status the fingerprint store gave for each member's
/// fingerprint (the entry of a member without a fingerprint is not used).
pub fn refresh_trust(
    statuses: &mut HashMap<u128, VerificationStatus>,
    own: Option<u128>,
    members: &[RoomMember],
    looked: &[VerificationStatus],
)
    requires
        looked@.len() == members@.len(),
    ensures
        final(statuses)@ == trust_after(old(statuses)@, own, members@, looked@),
{
    let mut i: usize = 0;
    while i < members.len()
        invariant
            i <= members@.len(),
            looked@.len() == members@.len(),
            statuses@ == trust_after(
                old(statuses)@,
                own,
                members@.take(i as int),
                looked@.take(i as int),
            ),
        decreases members@.len() - i,
    {
        proof {
            assert(members@.take(i + 1).drop_last() =~= members@.take(i as int));
            assert(looked@.take(i + 1).drop_last() =~= looked@.take(i as int));
        }
        let m = &members[i];
        let is_own = match own {
            Some(u) => u == m.user_id,
            None => false,
        };
        if is_own {
            statuses.insert(m.user_id, VerificationStatus::Verified);
        } else if m.signing_key_fingerprint.is_some() {
            statuses.insert(m.user_id, looked[i]);
        }
        i = i + 1;
    }
    proof {
        assert(members@.take(members@.len() as int) =~= members@);
        assert(looked@.take(looked@.len() as int) =~= looked@);
    }
}

/// What to do with a message after it was added to the state.
pub struct Delivery {
    /// The room the message went to; `None` for the system list.
    pub group_id: Option<u128>,
    /// Whether the message belongs in the room's stored history.
    pub store_message: bool,
    /// Whether the message is in the view on screen.
    pub shown: bool,
    /// Whether a desktop notification announces it.
    pub notify_native: bool,
    /// Whether the terminal bell announces it.
    pub ring_bell: bool,
}

/// Adds a message to the state: to the given room, or, for a message tied
/// to no room, to the active room or else the system list. A message in the
/// view marks the room read and scrolls to the bottom; a user's message in
/// another room is announced as configured.
pub fn deliver_message(
    state: &mut AppState,
    group_id: Option<u128>,
    msg: DisplayMessage,
    notifications: NotificationMethod,
) -> (d: Delivery)
    ensures
        d.group_id == match group_id {
            Some(g) => Some(g),
            None => old(state).active_room,
        },
        d.store_message == (group_id is Some),
        d.shown == (d.group_id == old(state).active_room),
        d.shown ==> active_messages_spec(*final(state)) == active_messages_spec(*old(state)).push(
            msg,
        ),
        d.shown ==> final(state).scroll_offset == 0,
        !d.shown ==> active_messages_spec(*final(state)) == active_messages_spec(*old(state)),
        !d.shown ==> final(state).scroll_offset == old(state).scroll_offset,
        d.notify_native == (!d.shown && !msg.is_system && group_id is Some
            && notifications.uses_native_spec()),
        d.ring_bell == (!d.shown && !msg.is_system && group_id is Some
            && notifications.uses_bell_spec()),
        final(state).active_room == old(state).active_room,
        final(state).rooms@.dom() == old(state).rooms@.dom(),
        match d.group_id {
            Some(g) => {
                &&& crate::state::lists_view(final(state).room_messages@)
                    == crate::state::lists_view(old(state).room_messages@).insert(
                    g,
                    if old(state).room_messages@.contains_key(g) {
                        old(state).room_messages@[g]@.push(msg)
                    } else {
                        seq![msg]
                    },
                )
                &&& final(state).system_messages == old(state).system_messages
            },
            None => {
                &&& final(state).system_messages@ == old(state).system_messages@.push(msg)
                &&& final(state).room_messages == old(state).room_messages
            },
        },
        forall|k: u128|
            #[trigger] old(state).rooms@.contains_key(k) && !(d.shown && d.group_id == Some(k))
                ==> final(state).rooms@[k] == old(state).rooms@[k],
        forall|k: u128|
            #[trigger] old(state).rooms@.contains_key(k) && d.shown && d.group_id == Some(k)
                ==> final(state).rooms@[k] == (Room {
                last_read_seq: old(state).rooms@[k].last_seen_seq,
                ..old(state).rooms@[k]
            }),
        final(state).group_mapping == old(state).group_mapping,
        final(state).user_id == old(state).user_id,
{
    let ghost start = *state;
    let target = match group_id {
        Some(g) => Some(g),
        None => state.active_room,
    };
    let shown = target == state.active_room;
    let is_system = msg.is_system;
    match target {
        Some(g) => {
            state.push_room_message(g, msg);
            proof {
                if shown {
                    crate::cli::state::lemma_pushed_message_is_shown(start, *state, msg);
                }
            }
        },
        None => {
            state.push_system_message(msg);
        },
    }
    let ghost after_push = *state;
    if shown {
        if let Some(g) = target {
            mark_read(&mut state.rooms, g);
        }
        state.scroll_offset = 0;
    }
    proof {
        assert(active_messages_spec(*state) == active_messages_spec(after_push));
        if !shown {
            if let Some(g) = target {
                if let Some(a) = start.active_room {
                    assert(g != a);
                    assert(crate::state::lists_view(state.room_messages@).contains_key(a)
                        == crate::state::lists_view(start.room_messages@).contains_key(a));
                    assert(state.room_messages@.contains_key(a) == start.room_messages@.contains_key(a));
                    assert(crate::state::lists_view(state.room_messages@)[a] == crate::state::lists_view(
                        start.room_messages@,
                    )[a]);
                }
            }
        }
    }
    let announce = !shown && !is_system && group_id.is_some();
    Delivery {
        group_id: target,
        store_message: group_id.is_some(),
        shown,
        notify_native: announce && notifications.uses_native(),
        ring_bell: announce && notifications.uses_bell(),
    }
}

/// The name of a user as the rooms know it: the display name of a member
/// with that ID in some room (any one, when several rooms have the user),
/// or `user#<id>` when no room has the user.
pub fn resolve_display_name(user_id: u128, state: &AppState) -> (r: String)
    ensures
        (exists|g: u128, i: int|
            #![trigger state.rooms@[g].members@[i]]
            state.rooms@.contains_key(g) && 0 <= i < state.rooms@[g].members@.len()
                && state.rooms@[g].members@[i].user_id == user_id) ==> exists|g: u128, i: int|
            #![trigger state.rooms@[g].members@[i]]
            state.rooms@.contains_key(g) && 0 <= i < state.rooms@[g].members@.len()
                && state.rooms@[g].members@[i].user_id == user_id && r@ == member_display_name_spec(
                state.rooms@[g].members@[i],
            ),
        !(exists|g: u128, i: int|
            #![trigger state.rooms@[g].members@[i]]
            state.rooms@.contains_key(g) && 0 <= i < state.rooms@[g].members@.len()
                && state.rooms@[g].members@[i].user_id == user_id) ==> r@ == "user#"@
            + uuid_text_spec(user_id),
{
    let keys = crate::state::keys_of(&state.rooms);
    let mut k: usize = 0;
    while k < keys.len()
        invariant
            k <= keys@.len(),
            keys@.to_set() == state.rooms@.dom(),
            forall|j: int, i: int|
                0 <= j < k && 0 <= i < state.rooms@[keys@[j]].members@.len() ==> (
                #[trigger] state.rooms@[keys@[j]].members@[i]).user_id != user_id,
        decreases keys@.len() - k,
    {
        let g = keys[k];
        assert(keys@.contains(g));
        let room = state.rooms.get(&g).unwrap();
        match find_member(room.members.as_slice(), user_id) {
            Some(i) => {
                return owned(room.members[i].display_name());
            },
            None => {},
        }
        k = k + 1;
    }
    proof {
        assert forall|g: u128, i: int|
            #![trigger state.rooms@[g].members@[i]]
            state.rooms@.contains_key(g) && 0 <= i < state.rooms@[g].members@.len() implies state.rooms@[g].members@[i].user_id
            != user_id by {
            assert(keys@.to_set().contains(g));
            let j = choose|j: int| 0 <= j < keys@.len() && #[trigger] keys@[j] == g;
            assert(state.rooms@[keys@[j]].members@[i].user_id != user_id);
        }
    }
    let mut out: Vec<char> = Vec::new();
    push_str(&mut out, "user#");
    let id = uuid_to_string(user_id);
    push_str(&mut out, id.as_str());
    string_from_chars(out.as_slice())
}

} // verus!

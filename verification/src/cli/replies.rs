//! The replies of the terminal interface to commands that list what the
//! server answered: members with their trust, invitations, admins, rooms and
//! the details of a group. Fetching what is listed is left to the caller.

use std::collections::HashMap;

use vstd::prelude::*;

use crate::cli::commands::{admin_label, admin_label_spec, room_name, room_name_or_empty};
use crate::cli::state::AppState;
use crate::command::strings_view;
use crate::ids::{uuid_text_spec, uuid_to_string};
use crate::operations::{resolve_user_display_name, user_display_name_spec};
use crate::state::{
    member_display_name_spec, room_display_name_spec, Room, RoomMember, VerificationStatus,
};
use crate::text::{decimal_spec, owned, push_all, push_str, str_eq, string_from_chars, u64_to_chars};
use crate::tui::commands::{join_names, joined_spec};

verus! {

broadcast use vstd::std_specs::hash::group_hash_axioms;

/// The mark before a member's name: `[!] ` for a changed key, `[?] ` for a
/// key not verified or not known, nothing for a verified one.
pub open spec fn trust_mark_spec(s: VerificationStatus) -> Seq<char> {
    match s {
        VerificationStatus::Changed => "[!] "@,
        VerificationStatus::Unknown => "[?] "@,
        VerificationStatus::Unverified => "[?] "@,
        VerificationStatus::Verified => ""@,
    }
}

/// How a member is listed: the trust mark, the name, and ` (admin)` for an
/// admin.
pub open spec fn member_entry_spec(m: RoomMember, s: VerificationStatus) -> Seq<char> {
    trust_mark_spec(s) + member_display_name_spec(m) + (if m.role@ == "admin"@ {
        " (admin)"@
    } else {
        ""@
    })
}

/// The entries of the members, each with its status.
pub open spec fn member_entries_spec(
    members: Seq<RoomMember>,
    statuses: Seq<VerificationStatus>,
) -> Seq<Seq<char>> {
    Seq::new(members.len(), |i: int| member_entry_spec(members[i], statuses[i]))
}

/// The entry of one member.
fn member_entry(m: &RoomMember, s: VerificationStatus) -> (r: String)
    ensures
        r@ == member_entry_spec(*m, s),
{
    proof {
        reveal_strlit("[!] ");
        reveal_strlit("[?] ");
        reveal_strlit("");
        reveal_strlit(" (admin)");
    }
    let mut out: Vec<char> = Vec::new();
    match s {
        VerificationStatus::Changed => push_str(&mut out, "[!] "),
        VerificationStatus::Unknown => push_str(&mut out, "[?] "),
        VerificationStatus::Unverified => push_str(&mut out, "[?] "),
        VerificationStatus::Verified => {},
    }
    push_str(&mut out, m.display_name());
    if str_eq(m.role.as_str(), "admin") {
        push_str(&mut out, " (admin)");
    }
    let r = string_from_chars(out.as_slice());
    assert(r@ =~= member_entry_spec(*m, s));
    r
}

/// The line that lists a room's members, each with the status of their key,
/// given in the order of the members.
pub fn members_line(room: &Room, statuses: &[VerificationStatus]) -> (r: String)
    requires
        statuses@.len() == room.members@.len(),
    ensures
        r@ == "Members of #"@ + room_display_name_spec(*room) + ": "@ + joined_spec(
            member_entries_spec(room.members@, statuses@),
        ),
{
    let mut entries: Vec<String> = Vec::new();
    let mut i: usize = 0;
    while i < room.members.len()
        invariant
            i <= room.members@.len(),
            statuses@.len() == room.members@.len(),
            strings_view(entries@) =~= member_entries_spec(room.members@, statuses@).take(
                i as int,
            ),
        decreases room.members@.len() - i,
    {
        let e = member_entry(&room.members[i], statuses[i]);
        let ghost before = strings_view(entries@);
        entries.push(e);
        assert(strings_view(entries@) =~= before.push(member_entry_spec(
            room.members@[i as int],
            statuses@[i as int],
        )));
        assert(strings_view(entries@) =~= member_entries_spec(room.members@, statuses@).take(
            i + 1,
        ));
        i = i + 1;
    }
    assert(member_entries_spec(room.members@, statuses@).take(room.members@.len() as int)
        =~= member_entries_spec(room.members@, statuses@));
    let list = join_names(entries.as_slice());
    let name = room.display_name();
    let mut out: Vec<char> = Vec::new();
    push_str(&mut out, "Members of #");
    push_str(&mut out, name.as_str());
    push_str(&mut out, ": ");
    push_all(&mut out, list.as_slice());
    let r = string_from_chars(out.as_slice());
    assert(r@ =~= "Members of #"@ + room_display_name_spec(*room) + ": "@ + joined_spec(
        member_entries_spec(room.members@, statuses@),
    ));
    r
}

/// An invitation waiting for this user.
pub struct PendingInvite {
    pub invite_id: u128,
    pub group_name: String,
    pub group_alias: String,
    pub inviter_username: String,
}

/// How an invitation is listed: its ID, the group's alias (or its name when
/// it has none) and who invited.
pub open spec fn invite_line_spec(i: PendingInvite) -> Seq<char> {
    "["@ + uuid_text_spec(i.invite_id) + "] #"@ + (if i.group_alias@.len() == 0 {
        i.group_name@
    } else {
        i.group_alias@
    }) + " \u{2014} invited by "@ + i.inviter_username@
}

/// The reply to a listing of the invitations waiting for this user.
pub open spec fn invite_lines_spec(invites: Seq<PendingInvite>) -> Seq<Seq<char>> {
    if invites.len() == 0 {
        seq!["No pending invitations."@]
    } else {
        invites.map_values(|i: PendingInvite| invite_line_spec(i)).push(
            "Use /accept <id> or /decline <id> to respond."@,
        )
    }
}

/// The lines that list the invitations waiting for this user.
pub fn invite_lines(invites: &[PendingInvite]) -> (r: Vec<String>)
    ensures
        strings_view(r@) == invite_lines_spec(invites@),
{
    let mut r: Vec<String> = Vec::new();
    if invites.len() == 0 {
        r.push(owned("No pending invitations."));
        assert(strings_view(r@) =~= invite_lines_spec(invites@));
        return r;
    }
    let mut i: usize = 0;
    while i < invites.len()
        invariant
            i <= invites@.len(),
            strings_view(r@) =~= invites@.take(i as int).map_values(
                |v: PendingInvite| invite_line_spec(v),
            ),
        decreases invites@.len() - i,
    {
        let inv = &invites[i];
        let mut out: Vec<char> = Vec::new();
        push_str(&mut out, "[");
        let id = uuid_to_string(inv.invite_id);
        push_str(&mut out, id.as_str());
        push_str(&mut out, "] #");
        if inv.group_alias.as_str().is_empty() {
            push_str(&mut out, inv.group_name.as_str());
        } else {
            push_str(&mut out, inv.group_alias.as_str());
        }
        push_str(&mut out, " \u{2014} invited by ");
        push_str(&mut out, inv.inviter_username.as_str());
        let line = string_from_chars(out.as_slice());
        assert(line@ =~= invite_line_spec(invites@[i as int]));
        let ghost before = strings_view(r@);
        r.push(line);
        assert(strings_view(r@) =~= before.push(invite_line_spec(invites@[i as int])));
        assert(invites@.take(i + 1) =~= invites@.take(i as int).push(invites@[i as int]));
        assert(strings_view(r@) =~= invites@.take(i + 1).map_values(
            |v: PendingInvite| invite_line_spec(v),
        ));
        i = i + 1;
    }
    r.push(owned("Use /accept <id> or /decline <id> to respond."));
    assert(invites@.take(invites@.len() as int) =~= invites@);
    assert(strings_view(r@) =~= invite_lines_spec(invites@));
    r
}

/// An invitation to the active room that is still open.
pub struct RoomInvite {
    pub invitee_id: u128,
    pub inviter_username: String,
}

/// The members of a group's room, none when the room is unknown.
pub open spec fn room_members_spec(rooms: Map<u128, Room>, group_id: u128) -> Seq<RoomMember> {
    if rooms.contains_key(group_id) {
        rooms[group_id].members@
    } else {
        Seq::empty()
    }
}

/// How an open invitation to a room is listed: the invited user by their
/// name in the room (or `user#` and their ID) and who invited them.
pub open spec fn room_invite_line_spec(members: Seq<RoomMember>, i: RoomInvite) -> Seq<char> {
    "  "@ + user_display_name_spec(Some(i.invitee_id), members) + " \u{2014} invited by "@
        + i.inviter_username@
}

/// The reply to a listing of the open invitations to a room.
pub open spec fn room_invite_lines_spec(
    rooms: Map<u128, Room>,
    group_id: u128,
    invites: Seq<RoomInvite>,
) -> Seq<Seq<char>> {
    if invites.len() == 0 {
        seq!["No pending invites for this room."@]
    } else {
        seq!["Pending invites for #"@ + room_name_or_empty(rooms, group_id) + ":"@] + invites.map_values(
            |i: RoomInvite| room_invite_line_spec(room_members_spec(rooms, group_id), i),
        )
    }
}

/// The lines that list the open invitations to a room.
pub fn room_invite_lines(rooms: &HashMap<u128, Room>, group_id: u128, invites: &[RoomInvite]) -> (r:
    Vec<String>)
    ensures
        strings_view(r@) == room_invite_lines_spec(rooms@, group_id, invites@),
{
    let mut r: Vec<String> = Vec::new();
    if invites.len() == 0 {
        r.push(owned("No pending invites for this room."));
        assert(strings_view(r@) =~= room_invite_lines_spec(rooms@, group_id, invites@));
        return r;
    }
    let name = room_name(rooms, group_id);
    let mut head: Vec<char> = Vec::new();
    push_str(&mut head, "Pending invites for #");
    push_str(&mut head, name.as_str());
    push_str(&mut head, ":");
    r.push(string_from_chars(head.as_slice()));
    let empty: Vec<RoomMember> = Vec::new();
    let members: &[RoomMember] = match rooms.get(&group_id) {
        Some(room) => room.members.as_slice(),
        None => empty.as_slice(),
    };
    assert(members@ == room_members_spec(rooms@, group_id));
    let ghost first = strings_view(r@);
    let mut i: usize = 0;
    while i < invites.len()
        invariant
            i <= invites@.len(),
            members@ == room_members_spec(rooms@, group_id),
            first.len() == 1,
            strings_view(r@) =~= first + invites@.take(i as int).map_values(
                |v: RoomInvite| room_invite_line_spec(room_members_spec(rooms@, group_id), v),
            ),
        decreases invites@.len() - i,
    {
        let inv = &invites[i];
        let who = resolve_user_display_name(Some(inv.invitee_id), members);
        let mut out: Vec<char> = Vec::new();
        push_str(&mut out, "  ");
        push_str(&mut out, who.as_str());
        push_str(&mut out, " \u{2014} invited by ");
        push_str(&mut out, inv.inviter_username.as_str());
        let line = string_from_chars(out.as_slice());
        assert(line@ =~= room_invite_line_spec(room_members_spec(rooms@, group_id), invites@[i as int]));
        let ghost before = strings_view(r@);
        r.push(line);
        assert(strings_view(r@) =~= before.push(line@));
        assert(invites@.take(i + 1) =~= invites@.take(i as int).push(invites@[i as int]));
        assert(strings_view(r@) =~= first + invites@.take(i + 1).map_values(
            |v: RoomInvite| room_invite_line_spec(room_members_spec(rooms@, group_id), v),
        ));
        i = i + 1;
    }
    assert(invites@.take(invites@.len() as int) =~= invites@);
    assert(strings_view(r@) =~= room_invite_lines_spec(rooms@, group_id, invites@));
    r
}

/// An admin of a room.
pub struct Admin {
    pub alias: String,
    pub username: String,
}

/// The line that lists the admins of a room.
pub open spec fn admins_line_spec(
    rooms: Map<u128, Room>,
    group_id: u128,
    admins: Seq<Admin>,
) -> Seq<char> {
    "Admins of #"@ + room_name_or_empty(rooms, group_id) + ": "@ + joined_spec(
        admins.map_values(|a: Admin| admin_label_spec(a.alias@, a.username@)),
    )
}

/// The line that lists the admins of a room.
pub fn admins_line(rooms: &HashMap<u128, Room>, group_id: u128, admins: &[Admin]) -> (r: String)
    ensures
        r@ == admins_line_spec(rooms@, group_id, admins@),
{
    let mut labels: Vec<String> = Vec::new();
    let mut i: usize = 0;
    while i < admins.len()
        invariant
            i <= admins@.len(),
            strings_view(labels@) =~= admins@.take(i as int).map_values(
                |a: Admin| admin_label_spec(a.alias@, a.username@),
            ),
        decreases admins@.len() - i,
    {
        let label = admin_label(admins[i].alias.as_str(), admins[i].username.as_str());
        let ghost before = strings_view(labels@);
        labels.push(label);
        assert(strings_view(labels@) =~= before.push(label@));
        assert(admins@.take(i + 1) =~= admins@.take(i as int).push(admins@[i as int]));
        assert(strings_view(labels@) =~= admins@.take(i + 1).map_values(
            |a: Admin| admin_label_spec(a.alias@, a.username@),
        ));
        i = i + 1;
    }
    assert(admins@.take(admins@.len() as int) =~= admins@);
    let list = join_names(labels.as_slice());
    let name = room_name(rooms, group_id);
    let mut out: Vec<char> = Vec::new();
    push_str(&mut out, "Admins of #");
    push_str(&mut out, name.as_str());
    push_str(&mut out, ": ");
    push_all(&mut out, list.as_slice());
    string_from_chars(out.as_slice())
}

/// How a group that was joined is named: its alias, or its ID when it has
/// none.
pub open spec fn joined_group_label_spec(group_id: u128, alias: Option<Seq<char>>) -> Seq<char> {
    match alias {
        Some(a) => a,
        None => uuid_text_spec(group_id),
    }
}

/// The line after a group was joined: `verb #label (ID)`.
pub open spec fn joined_line_spec(verb: Seq<char>, group_id: u128, alias: Option<Seq<char>>) -> Seq<
    char,
> {
    verb + " #"@ + joined_group_label_spec(group_id, alias) + " ("@ + uuid_text_spec(group_id)
        + ")"@
}

/// The line after a group was joined.
fn joined_line(verb: &str, group_id: u128, alias: Option<&str>) -> (r: String)
    ensures
        r@ == joined_line_spec(
            verb@,
            group_id,
            match alias {
                Some(a) => Some(a@),
                None => None,
            },
        ),
{
    let id = uuid_to_string(group_id);
    let mut out: Vec<char> = Vec::new();
    push_str(&mut out, verb);
    push_str(&mut out, " #");
    match alias {
        Some(a) => push_str(&mut out, a),
        None => push_str(&mut out, id.as_str()),
    }
    push_str(&mut out, " (");
    push_str(&mut out, id.as_str());
    push_str(&mut out, ")");
    string_from_chars(out.as_slice())
}

/// The line after a group was joined through a welcome.
pub fn welcome_joined_line(group_id: u128, alias: Option<&str>) -> (r: String)
    ensures
        r@ == joined_line_spec(
            "Joined"@,
            group_id,
            match alias {
                Some(a) => Some(a@),
                None => None,
            },
        ),
{
    joined_line("Joined", group_id, alias)
}

/// The line after an invitation to a group was accepted.
pub fn accepted_line(group_id: u128, alias: Option<&str>) -> (r: String)
    ensures
        r@ == joined_line_spec(
            "Accepted invitation to"@,
            group_id,
            match alias {
                Some(a) => Some(a@),
                None => None,
            },
        ),
{
    joined_line("Accepted invitation to", group_id, alias)
}

/// The rooms without local encryption state: those with no MLS group.
pub open spec fn unmapped_rooms(s: AppState) -> Set<u128> {
    s.rooms@.dom().filter(|g: u128| !s.group_mapping@.contains_key(g))
}

/// The notice after logging in while some rooms have no local encryption
/// state, or none when every room has it.
pub open spec fn unmapped_notice_spec(count: nat) -> Option<Seq<char>> {
    if count == 0 {
        None
    } else {
        Some(
            decimal_spec(count)
                + " group(s) have no local encryption state. Run /reset to rejoin them with a new identity."@,
        )
    }
}

/// The notice about rooms without local encryption state.
pub fn unmapped_notice(state: &AppState) -> (r: Option<String>)
    ensures
        unmapped_rooms(*state).finite(),
        match (r, unmapped_notice_spec(unmapped_rooms(*state).len())) {
            (Some(a), Some(b)) => a@ == b,
            (None, None) => true,
            _ => false,
        },
{
    let keys = crate::state::keys_of(&state.rooms);
    let ghost p = |g: u128| !state.group_mapping@.contains_key(g);
    let mut count: usize = 0;
    let mut i: usize = 0;
    proof {
        assert(keys@.take(0).to_set() =~= Set::<u128>::empty());
        assert(keys@.take(0).to_set().filter(p) =~= Set::<u128>::empty());
    }
    while i < keys.len()
        invariant
            i <= keys@.len(),
            keys@.no_duplicates(),
            keys@.to_set() == state.rooms@.dom(),
            p == (|g: u128| !state.group_mapping@.contains_key(g)),
            keys@.take(i as int).to_set().filter(p).finite(),
            count == keys@.take(i as int).to_set().filter(p).len(),
            count <= i,
        decreases keys@.len() - i,
    {
        let k = keys[i];
        let ghost before = keys@.take(i as int).to_set().filter(p);
        proof {
            assert(keys@.take(i + 1) =~= keys@.take(i as int).push(k));
            keys@.take(i as int).lemma_push_to_set_commute(k);
            assert(keys@.take(i + 1).to_set() =~= keys@.take(i as int).to_set().insert(k));
            assert(!keys@.take(i as int).to_set().contains(k)) by {
                if keys@.take(i as int).to_set().contains(k) {
                    let j = choose|j: int| 0 <= j < i && keys@.take(i as int)[j] == k;
                    assert(keys@[j] == keys@[i as int]);
                }
            }
        }
        if !state.group_mapping.contains_key(&k) {
            proof {
                assert(keys@.take(i + 1).to_set().filter(p) =~= before.insert(k));
            }
            count = count + 1;
        } else {
            proof {
                assert(keys@.take(i + 1).to_set().filter(p) =~= before);
            }
        }
        i = i + 1;
    }
    proof {
        assert(keys@.take(keys@.len() as int) =~= keys@);
        assert(keys@.to_set().filter(p) =~= unmapped_rooms(*state));
    }
    if count == 0 {
        return None;
    }
    let digits = u64_to_chars(count as u64);
    let mut out: Vec<char> = Vec::new();
    push_all(&mut out, digits.as_slice());
    push_str(
        &mut out,
        " group(s) have no local encryption state. Run /reset to rejoin them with a new identity.",
    );
    Some(string_from_chars(out.as_slice()))
}

/// How a room is listed: its name, its members, its ID, and whether it is
/// the active one.
pub open spec fn room_list_line_spec(room: Room, active: bool) -> Seq<char> {
    "  #"@ + room_display_name_spec(room) + " ["@ + joined_spec(
        room.members@.map_values(|m: RoomMember| member_display_name_spec(m)),
    ) + "] -- "@ + uuid_text_spec(room.server_group_id) + (if active {
        " (active)"@
    } else {
        ""@
    })
}

/// The line of one room.
fn room_list_line(room: &Room, active: bool) -> (r: String)
    ensures
        r@ == room_list_line_spec(*room, active),
{
    proof {
        reveal_strlit("");
    }
    let mut names: Vec<String> = Vec::new();
    let mut i: usize = 0;
    while i < room.members.len()
        invariant
            i <= room.members@.len(),
            strings_view(names@) =~= room.members@.take(i as int).map_values(
                |m: RoomMember| member_display_name_spec(m),
            ),
        decreases room.members@.len() - i,
    {
        let ghost before = strings_view(names@);
        let n = owned(room.members[i].display_name());
        names.push(n);
        assert(strings_view(names@) =~= before.push(n@));
        assert(room.members@.take(i + 1) =~= room.members@.take(i as int).push(
            room.members@[i as int],
        ));
        assert(strings_view(names@) =~= room.members@.take(i + 1).map_values(
            |m: RoomMember| member_display_name_spec(m),
        ));
        i = i + 1;
    }
    assert(room.members@.take(room.members@.len() as int) =~= room.members@);
    let list = join_names(names.as_slice());
    let name = room.display_name();
    let id = uuid_to_string(room.server_group_id);
    let mut out: Vec<char> = Vec::new();
    push_str(&mut out, "  #");
    push_str(&mut out, name.as_str());
    push_str(&mut out, " [");
    push_all(&mut out, list.as_slice());
    push_str(&mut out, "] -- ");
    push_str(&mut out, id.as_str());
    if active {
        push_str(&mut out, " (active)");
    }
    let r = string_from_chars(out.as_slice());
    assert(r@ =~= room_list_line_spec(*room, active));
    r
}

/// The reply to a listing of the rooms: `No rooms.`, or a heading and one
/// line per room. The rooms come in the order in which the map holds them,
/// which is left open: each room is listed once.
pub fn rooms_lines(state: &AppState) -> (r: Vec<String>)
    ensures
        state.rooms@.dom().len() == 0 ==> strings_view(r@) == seq!["No rooms."@],
        state.rooms@.dom().len() > 0 ==> {
            &&& r@.len() == state.rooms@.dom().len() + 1
            &&& r@[0]@ == "Rooms:"@
            &&& exists|ks: Seq<u128>|
                {
                    &&& ks.len() + 1 == r@.len()
                    &&& ks.no_duplicates()
                    &&& ks.to_set() == state.rooms@.dom()
                    &&& forall|i: int|
                        0 <= i < ks.len() ==> (#[trigger] r@[i + 1])@ == room_list_line_spec(
                            state.rooms@[ks[i]],
                            state.active_room == Some(ks[i]),
                        )
                }
        },
{
    let keys = crate::state::keys_of(&state.rooms);
    proof {
        keys@.unique_seq_to_set();
    }
    let mut r: Vec<String> = Vec::new();
    if keys.len() == 0 {
        r.push(owned("No rooms."));
        assert(strings_view(r@) =~= seq!["No rooms."@]);
        return r;
    }
    r.push(owned("Rooms:"));
    let mut i: usize = 0;
    while i < keys.len()
        invariant
            i <= keys@.len(),
            keys@.to_set() == state.rooms@.dom(),
            r@.len() == i + 1,
            r@[0]@ == "Rooms:"@,
            forall|j: int|
                0 <= j < i ==> (#[trigger] r@[j + 1])@ == room_list_line_spec(
                    state.rooms@[keys@[j]],
                    state.active_room == Some(keys@[j]),
                ),
        decreases keys@.len() - i,
    {
        let k = keys[i];
        assert(keys@.to_set().contains(k));
        let room = state.rooms.get(&k).unwrap();
        let active = match state.active_room {
            Some(g) => g == k,
            None => false,
        };
        r.push(room_list_line(room, active));
        i = i + 1;
    }
    r
}

/// How one leaf of a group is listed: its index, the member's name in the
/// room (`user#` and the ID for one not in it, `<unknown>` for a leaf without
/// a user ID), and ` (you)` where it is this user's.
pub open spec fn leaf_line_spec(members: Seq<RoomMember>, own_index: u32, l: (u32, Option<u128>)) -> Seq<
    char,
> {
    "    ["@ + decimal_spec(l.0 as nat) + "] "@ + user_display_name_spec(l.1, members) + (if l.0
        == own_index {
        " (you)"@
    } else {
        ""@
    })
}

/// The lines of the leaves.
pub open spec fn leaf_lines_spec(
    members: Seq<RoomMember>,
    own_index: u32,
    leaves: Seq<(u32, Option<u128>)>,
) -> Seq<Seq<char>> {
    Seq::new(leaves.len(), |i: int| leaf_line_spec(members, own_index, leaves[i]))
}

/// The lines that show the MLS details of a room's group: its name and IDs,
/// epoch, cipher suite and size, then one line per leaf.
pub open spec fn info_lines_spec(
    rooms: Map<u128, Room>,
    group_id: u128,
    mls_group_id: Seq<char>,
    epoch: u64,
    cipher_suite: Seq<char>,
    member_count: usize,
    own_index: u32,
    leaves: Seq<(u32, Option<u128>)>,
) -> Seq<Seq<char>> {
    seq![
        "Group: #"@ + (if rooms.contains_key(group_id) {
            room_display_name_spec(rooms[group_id])
        } else {
            "unknown"@
        }),
        "  Server ID: "@ + uuid_text_spec(group_id),
        "  MLS Group ID: "@ + mls_group_id,
        "  Epoch: "@ + decimal_spec(epoch as nat),
        "  Cipher Suite: "@ + cipher_suite,
        "  Members: "@ + decimal_spec(member_count as nat) + " (your index: "@ + decimal_spec(
            own_index as nat,
        ) + ")"@,
    ] + leaf_lines_spec(room_members_spec(rooms, group_id), own_index, leaves)
}

/// The line of one leaf.
fn leaf_line(members: &[RoomMember], own_index: u32, index: u32, uid: Option<u128>) -> (r: String)
    ensures
        r@ == leaf_line_spec(members@, own_index, (index, uid)),
{
    proof {
        reveal_strlit("");
    }
    let who = resolve_user_display_name(uid, members);
    let mut out: Vec<char> = Vec::new();
    push_str(&mut out, "    [");
    let digits = u64_to_chars(index as u64);
    push_all(&mut out, digits.as_slice());
    push_str(&mut out, "] ");
    push_str(&mut out, who.as_str());
    if index == own_index {
        push_str(&mut out, " (you)");
    }
    let r = string_from_chars(out.as_slice());
    assert(r@ =~= leaf_line_spec(members@, own_index, (index, uid)));
    r
}

/// The lines that show the MLS details of a room's group.
pub fn info_lines(
    rooms: &HashMap<u128, Room>,
    group_id: u128,
    mls_group_id: &str,
    epoch: u64,
    cipher_suite: &str,
    member_count: usize,
    own_index: u32,
    leaves: &[(u32, Option<u128>)],
) -> (r: Vec<String>)
    ensures
        strings_view(r@) == info_lines_spec(
            rooms@,
            group_id,
            mls_group_id@,
            epoch,
            cipher_suite@,
            member_count,
            own_index,
            leaves@,
        ),
{
    let mut r: Vec<String> = Vec::new();
    let name = match rooms.get(&group_id) {
        Some(room) => room.display_name(),
        None => owned("unknown"),
    };
    let mut a: Vec<char> = Vec::new();
    push_str(&mut a, "Group: #");
    push_str(&mut a, name.as_str());
    r.push(string_from_chars(a.as_slice()));
    let id = uuid_to_string(group_id);
    let mut b: Vec<char> = Vec::new();
    push_str(&mut b, "  Server ID: ");
    push_str(&mut b, id.as_str());
    r.push(string_from_chars(b.as_slice()));
    let mut c: Vec<char> = Vec::new();
    push_str(&mut c, "  MLS Group ID: ");
    push_str(&mut c, mls_group_id);
    r.push(string_from_chars(c.as_slice()));
    let mut d: Vec<char> = Vec::new();
    push_str(&mut d, "  Epoch: ");
    let ed = u64_to_chars(epoch);
    push_all(&mut d, ed.as_slice());
    r.push(string_from_chars(d.as_slice()));
    let mut e: Vec<char> = Vec::new();
    push_str(&mut e, "  Cipher Suite: ");
    push_str(&mut e, cipher_suite);
    r.push(string_from_chars(e.as_slice()));
    let mut f: Vec<char> = Vec::new();
    push_str(&mut f, "  Members: ");
    let md = u64_to_chars(member_count as u64);
    push_all(&mut f, md.as_slice());
    push_str(&mut f, " (your index: ");
    let od = u64_to_chars(own_index as u64);
    push_all(&mut f, od.as_slice());
    push_str(&mut f, ")");
    r.push(string_from_chars(f.as_slice()));
    let empty: Vec<RoomMember> = Vec::new();
    let members: &[RoomMember] = match rooms.get(&group_id) {
        Some(room) => room.members.as_slice(),
        None => empty.as_slice(),
    };
    let ghost head = strings_view(r@);
    assert(head =~= info_lines_spec(
        rooms@,
        group_id,
        mls_group_id@,
        epoch,
        cipher_suite@,
        member_count,
        own_index,
        leaves@,
    ).take(6));
    let mut i: usize = 0;
    while i < leaves.len()
        invariant
            i <= leaves@.len(),
            members@ == room_members_spec(rooms@, group_id),
            strings_view(r@) =~= head + leaf_lines_spec(members@, own_index, leaves@).take(
                i as int,
            ),
        decreases leaves@.len() - i,
    {
        let (index, uid) = leaves[i];
        let s = leaf_line(members, own_index, index, uid);
        let ghost before = strings_view(r@);
        r.push(s);
        assert(strings_view(r@) =~= before.push(s@));
        assert(strings_view(r@) =~= head + leaf_lines_spec(members@, own_index, leaves@).take(
            i + 1,
        ));
        i = i + 1;
    }
    assert(leaf_lines_spec(members@, own_index, leaves@).take(leaves@.len() as int)
        =~= leaf_lines_spec(members@, own_index, leaves@));
    assert(strings_view(r@) =~= info_lines_spec(
        rooms@,
        group_id,
        mls_group_id@,
        epoch,
        cipher_suite@,
        member_count,
        own_index,
        leaves@,
    ));
    r
}

/// How a user's key status is named when their profile is shown.
pub fn status_label(status: VerificationStatus) -> (r: &'static str)
    ensures
        r@ == match status {
            VerificationStatus::Unknown => "Unknown"@,
            VerificationStatus::Unverified => "Unverified"@,
            VerificationStatus::Verified => "Verified"@,
            VerificationStatus::Changed => "Changed (warning!)"@,
        },
{
    match status {
        VerificationStatus::Unknown => "Unknown",
        VerificationStatus::Unverified => "Unverified",
        VerificationStatus::Verified => "Verified",
        VerificationStatus::Changed => "Changed (warning!)",
    }
}

/// How a known fingerprint's state is named in the list of them: a changed
/// key first, then a verified one, otherwise unverified.
pub fn known_key_label(verified: bool, key_changed: bool) -> (r: &'static str)
    ensures
        r@ == (if key_changed {
            "Changed"@
        } else if verified {
            "Verified"@
        } else {
            "Unverified"@
        }),
{
    if key_changed {
        "Changed"
    } else if verified {
        "Verified"
    } else {
        "Unverified"
    }
}

/// The line that shows a user's profile: their name and ID.
pub fn user_line(username: &str, user_id: u128) -> (r: String)
    ensures
        r@ == "User: "@ + username@ + " (ID: "@ + uuid_text_spec(user_id) + ")"@,
{
    let id = uuid_to_string(user_id);
    let mut out: Vec<char> = Vec::new();
    push_str(&mut out, "User: ");
    push_str(&mut out, username);
    push_str(&mut out, " (ID: ");
    push_str(&mut out, id.as_str());
    push_str(&mut out, ")");
    string_from_chars(out.as_slice())
}

} // verus!

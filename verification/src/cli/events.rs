//! What server events do to the state of the terminal interface and which
//! messages they show. Fetching, decrypting and deleting local MLS state are
//! left to the caller, which passes in what it got.

use std::collections::HashMap;

use vstd::prelude::*;

use crate::cli::state::AppState;
use crate::ids::{uuid_text_spec, uuid_to_string};
use crate::operations::{resolve_user_display_name, user_display_name_spec, ProcessedMessage};
use crate::state::{room_display_name_spec, DisplayMessage, Room, RoomMember};
use crate::text::{chars_of, push_str, string_from_chars};

verus! {

broadcast use vstd::std_specs::hash::group_hash_axioms;

/// The name shown for a user of a group: the member's display name when the
/// group and the member are known, otherwise `user#<id>`.
pub open spec fn member_name_spec(rooms: Map<u128, Room>, group_id: u128, user_id: u128) -> Seq<
    char,
> {
    if rooms.contains_key(group_id) {
        user_display_name_spec(Some(user_id), rooms[group_id].members@)
    } else {
        "user#"@ + uuid_text_spec(user_id)
    }
}

/// The name of a user of a group.
pub fn member_name(rooms: &HashMap<u128, Room>, group_id: u128, user_id: u128) -> (r: String)
    ensures
        r@ == member_name_spec(rooms@, group_id, user_id),
{
    match rooms.get(&group_id) {
        Some(room) => resolve_user_display_name(Some(user_id), room.members.as_slice()),
        None => {
            let mut out: Vec<char> = Vec::new();
            push_str(&mut out, "user#");
            let id = uuid_to_string(user_id);
            push_str(&mut out, id.as_str());
            string_from_chars(out.as_slice())
        },
    }
}

/// The name shown for a group: its display name when known, otherwise its
/// ID.
pub open spec fn group_name_spec(rooms: Map<u128, Room>, group_id: u128) -> Seq<char> {
    if rooms.contains_key(group_id) {
        room_display_name_spec(rooms[group_id])
    } else {
        uuid_text_spec(group_id)
    }
}

/// The name of a group.
pub fn group_name(rooms: &HashMap<u128, Room>, group_id: u128) -> (r: String)
    ensures
        r@ == group_name_spec(rooms@, group_id),
{
    match rooms.get(&group_id) {
        Some(room) => room.display_name(),
        None => uuid_to_string(group_id),
    }
}

/// A system message with the given parts joined.
pub(crate) fn system_text(parts: &Vec<&str>) -> (m: DisplayMessage)
    ensures
        m.is_system,
        m.sender_id is None,
        m.content@ == parts@.map_values(|p: &str| p@).fold_left(
            Seq::<char>::empty(),
            |acc: Seq<char>, p: Seq<char>| acc + p,
        ),
{
    let ghost pv = parts@.map_values(|p: &str| p@);
    let mut out: Vec<char> = Vec::new();
    let mut i: usize = 0;
    while i < parts.len()
        invariant
            i <= parts@.len(),
            pv == parts@.map_values(|p: &str| p@),
            out@ == pv.take(i as int).fold_left(
                Seq::<char>::empty(),
                |acc: Seq<char>, p: Seq<char>| acc + p,
            ),
        decreases parts@.len() - i,
    {
        proof {
            assert(pv.take(i + 1).drop_last() =~= pv.take(i as int));
        }
        push_str(&mut out, parts[i]);
        i = i + 1;
    }
    proof {
        assert(pv.take(pv.len() as int) =~= pv);
    }
    let text = string_from_chars(out.as_slice());
    DisplayMessage::system(text.as_str())
}

/// The message shown when a member of a group resets their identity.
pub fn identity_reset_message(rooms: &HashMap<u128, Room>, group_id: u128, user_id: u128) -> (m:
    DisplayMessage)
    ensures
        m.is_system,
        m.content@ == "Caution: "@ + member_name_spec(rooms@, group_id, user_id)
            + " has reset their encryption identity."@,
{
    let name = member_name(rooms, group_id, user_id);
    let parts: Vec<&str> = vec!["Caution: ", name.as_str(), " has reset their encryption identity."];
    let m = system_text(&parts);
    proof {
        reveal_with_fuel(Seq::fold_left, 4);
        assert(parts@.map_values(|p: &str| p@) =~= seq![
            "Caution: "@,
            name@,
            " has reset their encryption identity."@,
        ]);
    }
    m
}

/// The message shown when a user declines an invitation to a group.
pub fn invite_declined_message(rooms: &HashMap<u128, Room>, group_id: u128, user_id: u128) -> (m:
    DisplayMessage)
    ensures
        m.is_system,
        m.content@ == member_name_spec(rooms@, group_id, user_id) + " declined the invitation."@,
{
    let name = member_name(rooms, group_id, user_id);
    let parts: Vec<&str> = vec![name.as_str(), " declined the invitation."];
    let m = system_text(&parts);
    proof {
        reveal_with_fuel(Seq::fold_left, 3);
        assert(parts@.map_values(|p: &str| p@) =~= seq![name@, " declined the invitation."@]);
    }
    m
}

/// The group name an invitation shows: the alias, or the group name when
/// the alias is empty.
pub open spec fn invite_display_spec(group_name: Seq<char>, group_alias: Seq<char>) -> Seq<char> {
    if group_alias.len() == 0 {
        group_name
    } else {
        group_alias
    }
}

/// The message shown when an invitation arrives.
pub fn invite_received_message(
    invite_id: u128,
    group_name: &str,
    group_alias: &str,
    inviter_id: u128,
) -> (m: DisplayMessage)
    ensures
        m.is_system,
        m.content@ == "Invitation from user#"@ + uuid_text_spec(inviter_id) + " to join #"@
            + invite_display_spec(group_name@, group_alias@) + ". Use /accept "@ + uuid_text_spec(
            invite_id,
        ) + " or /decline "@ + uuid_text_spec(invite_id) + "."@,
{
    let display = if group_alias.is_empty() {
        group_name
    } else {
        group_alias
    };
    let inviter = uuid_to_string(inviter_id);
    let invite = uuid_to_string(invite_id);
    let parts: Vec<&str> = vec![
        "Invitation from user#",
        inviter.as_str(),
        " to join #",
        display,
        ". Use /accept ",
        invite.as_str(),
        " or /decline ",
        invite.as_str(),
        ".",
    ];
    let m = system_text(&parts);
    proof {
        reveal_with_fuel(Seq::fold_left, 10);
        assert(parts@.map_values(|p: &str| p@) =~= seq![
            "Invitation from user#"@,
            inviter@,
            " to join #"@,
            display@,
            ". Use /accept "@,
            invite@,
            " or /decline "@,
            invite@,
            "."@,
        ]);
    }
    m
}

/// The message shown when an invitation is withdrawn.
pub fn invite_cancelled_message() -> (m: DisplayMessage)
    ensures
        m.is_system,
        m.content@ == "An invitation to this room was cancelled."@,
{
    DisplayMessage::system("An invitation to this room was cancelled.")
}

/// The message shown when this user is invited into a group: the alias of
/// the group, or its ID when it has none, and its ID.
pub fn welcome_message(group_id: u128, group_alias: &str) -> (m: DisplayMessage)
    ensures
        m.is_system,
        m.content@ == "You have been invited to #"@ + (if group_alias@.len() == 0 {
            uuid_text_spec(group_id)
        } else {
            group_alias@
        }) + " ("@ + uuid_text_spec(group_id) + ")"@,
{
    let id = uuid_to_string(group_id);
    let display = if group_alias.is_empty() {
        id.as_str()
    } else {
        group_alias
    };
    let parts: Vec<&str> = vec!["You have been invited to #", display, " (", id.as_str(), ")"];
    let m = system_text(&parts);
    proof {
        reveal_with_fuel(Seq::fold_left, 6);
        assert(parts@.map_values(|p: &str| p@) =~= seq![
            "You have been invited to #"@,
            display@,
            " ("@,
            id@,
            ")"@,
        ]);
    }
    m
}

/// Drops everything the interface holds about a group: its room, its MLS
/// group mapping, and the view of it when it is the active room.
pub fn forget_group(state: &mut AppState, group_id: u128)
    ensures
        final(state).rooms@ == old(state).rooms@.remove(group_id),
        final(state).group_mapping@ == old(state).group_mapping@.remove(group_id),
        final(state).active_room == (if old(state).active_room == Some(group_id) {
            None
        } else {
            old(state).active_room
        }),
        final(state).room_messages == old(state).room_messages,
        final(state).user_id == old(state).user_id,
        final(state).scroll_offset == old(state).scroll_offset,
{
    state.group_mapping.remove(&group_id);
    state.rooms.remove(&group_id);
    if state.active_room == Some(group_id) {
        state.active_room = None;
    }
}

/// A group was deleted: forgets it and says so.
pub fn group_deleted(state: &mut AppState, group_id: u128) -> (m: DisplayMessage)
    ensures
        m.is_system,
        m.content@ == "Room #"@ + group_name_spec(old(state).rooms@, group_id)
            + " has been deleted"@,
        final(state).rooms@ == old(state).rooms@.remove(group_id),
        final(state).group_mapping@ == old(state).group_mapping@.remove(group_id),
        final(state).active_room == (if old(state).active_room == Some(group_id) {
            None
        } else {
            old(state).active_room
        }),
{
    let name = group_name(&state.rooms, group_id);
    forget_group(state, group_id);
    let parts: Vec<&str> = vec!["Room #", name.as_str(), " has been deleted"];
    let m = system_text(&parts);
    proof {
        reveal_with_fuel(Seq::fold_left, 4);
        assert(parts@.map_values(|p: &str| p@) =~= seq!["Room #"@, name@, " has been deleted"@]);
    }
    m
}

/// The members of a roster other than the given user, in order.
pub open spec fn without_user(members: Seq<RoomMember>, user_id: u128) -> Seq<RoomMember>
    decreases members.len(),
{
    if members.len() == 0 {
        members
    } else {
        let rest = without_user(members.drop_last(), user_id);
        if members.last().user_id == user_id {
            rest
        } else {
            rest.push(members.last())
        }
    }
}

/// Removing a user from a roster keeps exactly the other members, in their
/// original order: the result is the roster filtered to the members whose user
/// ID differs, so every other member is still there and nobody with that ID is.
pub proof fn lemma_without_user_keeps_others(members: Seq<RoomMember>, user_id: u128)
    ensures
        without_user(members, user_id) == members.filter(|m: RoomMember| m.user_id != user_id),
        forall|m: RoomMember| #[trigger]
            without_user(members, user_id).contains(m) <==> (members.contains(m) && m.user_id
                != user_id),
    decreases members.len(),
{
    reveal(Seq::filter);
    if members.len() > 0 {
        let init = members.drop_last();
        let last = members.last();
        lemma_without_user_keeps_others(init, user_id);
        let rest = without_user(init, user_id);
        assert forall|m: RoomMember| #[trigger]
            without_user(members, user_id).contains(m) <==> (members.contains(m) && m.user_id
                != user_id) by {
            if members.contains(m) {
                let i = choose|i: int| 0 <= i < members.len() && members[i] == m;
                if i < members.len() - 1 {
                    assert(init[i] == m);
                }
            }
            if init.contains(m) {
                let i = choose|i: int| 0 <= i < init.len() && init[i] == m;
                assert(members[i] == m);
            }
            if last.user_id != user_id {
                if rest.push(last).contains(m) && m != last {
                    let i = choose|i: int| 0 <= i < rest.len() + 1 && rest.push(last)[i] == m;
                    assert(rest[i] == m);
                }
                if rest.contains(m) {
                    let i = choose|i: int| 0 <= i < rest.len() && rest[i] == m;
                    assert(rest.push(last)[i] == m);
                }
                assert(rest.push(last)[rest.len() as int] == last);
            }
            assert(members[members.len() - 1] == last);
        }
    }
}

/// The roster without the given user.
fn remove_member(members: Vec<RoomMember>, user_id: u128) -> (r: Vec<RoomMember>)
    ensures
        r@ == without_user(members@, user_id),
{
    let ghost all = members@;
    let mut out: Vec<RoomMember> = Vec::new();
    proof {
        assert(all.take(0) =~= Seq::<RoomMember>::empty());
    }
    for m in iter: members.into_iter()
        invariant
            iter.seq() == all,
            out@ == without_user(all.take(iter.index() as int), user_id),
    {
        assert(all.take(iter.index() + 1).drop_last() =~= all.take(iter.index() as int));
        assert(all.take(iter.index() + 1).last() == m);
        if m.user_id != user_id {
            out.push(m);
        }
    }
    assert(all.take(all.len() as int) =~= all);
    out
}

/// A member left a group or was removed from it. When it is this user, the
/// group is forgotten; otherwise the member leaves the group's roster.
pub fn member_removed(state: &mut AppState, group_id: u128, removed_user_id: u128) -> (m:
    DisplayMessage)
    ensures
        m.is_system,
        old(state).user_id == Some(removed_user_id) ==> {
            &&& m.content@ == "You were removed from #"@ + group_name_spec(
                old(state).rooms@,
                group_id,
            )
            &&& final(state).rooms@ == old(state).rooms@.remove(group_id)
            &&& final(state).group_mapping@ == old(state).group_mapping@.remove(group_id)
            &&& final(state).active_room == (if old(state).active_room == Some(group_id) {
                None
            } else {
                old(state).active_room
            })
        },
        old(state).user_id != Some(removed_user_id) ==> {
            &&& m.content@ == member_name_spec(old(state).rooms@, group_id, removed_user_id)
                + " was removed from the group"@
            &&& final(state).rooms@.dom() == old(state).rooms@.dom()
            &&& forall|g: u128|
                #[trigger] old(state).rooms@.contains_key(g) && g != group_id
                    ==> final(state).rooms@[g] == old(state).rooms@[g]
            &&& old(state).rooms@.contains_key(group_id) ==> final(state).rooms@[group_id]
                == (Room {
                members: final(state).rooms@[group_id].members,
                ..old(state).rooms@[group_id]
            }) && final(state).rooms@[group_id].members@ == without_user(
                old(state).rooms@[group_id].members@,
                removed_user_id,
            )
            &&& final(state).group_mapping == old(state).group_mapping
            &&& final(state).active_room == old(state).active_room
        },
{
    if state.user_id == Some(removed_user_id) {
        let name = group_name(&state.rooms, group_id);
        forget_group(state, group_id);
        let parts: Vec<&str> = vec!["You were removed from #", name.as_str()];
        let m = system_text(&parts);
        proof {
            reveal_with_fuel(Seq::fold_left, 3);
            assert(parts@.map_values(|p: &str| p@) =~= seq!["You were removed from #"@, name@]);
        }
        m
    } else {
        let name = member_name(&state.rooms, group_id, removed_user_id);
        let ghost before = state.rooms@;
        match state.rooms.remove(&group_id) {
            Some(room) => {
                let Room {
                    server_group_id,
                    group_name,
                    alias,
                    members,
                    last_seen_seq,
                    last_read_seq,
                    message_expiry_seconds,
                } = room;
                let kept = remove_member(members, removed_user_id);
                state.rooms.insert(
                    group_id,
                    Room {
                        server_group_id,
                        group_name,
                        alias,
                        members: kept,
                        last_seen_seq,
                        last_read_seq,
                        message_expiry_seconds,
                    },
                );
                assert(state.rooms@.dom() =~= before.dom());
            },
            None => {},
        }
        let parts: Vec<&str> = vec![name.as_str(), " was removed from the group"];
        let m = system_text(&parts);
        proof {
            reveal_with_fuel(Seq::fold_left, 3);
            assert(parts@.map_values(|p: &str| p@) =~= seq![name@, " was removed from the group"@]);
        }
        m
    }
}

/// Records that messages up to `seq` of a group were fetched: the group's
/// last seen sequence number becomes the larger of the two, and nothing
/// else changes.
pub fn note_seen(rooms: &mut HashMap<u128, Room>, group_id: u128, seq: u64)
    ensures
        final(rooms)@.dom() == old(rooms)@.dom(),
        forall|g: u128|
            #[trigger] old(rooms)@.contains_key(g) && g != group_id ==> final(rooms)@[g] == old(
                rooms,
            )@[g],
        old(rooms)@.contains_key(group_id) ==> final(rooms)@[group_id] == (Room {
            last_seen_seq: if old(rooms)@[group_id].last_seen_seq < seq {
                seq
            } else {
                old(rooms)@[group_id].last_seen_seq
            },
            ..old(rooms)@[group_id]
        }),
{
    let ghost before = rooms@;
    match rooms.remove(&group_id) {
        Some(room) => {
            let Room {
                server_group_id,
                group_name,
                alias,
                members,
                last_seen_seq,
                last_read_seq,
                message_expiry_seconds,
            } = room;
            let seen = if last_seen_seq < seq {
                seq
            } else {
                last_seen_seq
            };
            rooms.insert(
                group_id,
                Room {
                    server_group_id,
                    group_name,
                    alias,
                    members,
                    last_seen_seq: seen,
                    last_read_seq,
                    message_expiry_seconds,
                },
            );
            assert(rooms@.dom() =~= before.dom());
        },
        None => {},
    }
}

/// The message shown for a fetched and decrypted message: system messages
/// as system messages, others from their sender, with the sequence number
/// and epoch they came with.
pub open spec fn shown_as(p: ProcessedMessage, d: DisplayMessage) -> bool {
    &&& d.content@ == p.content@
    &&& d.is_system == p.is_system
    &&& d.sequence_num == Some(p.sequence_num)
    &&& d.epoch == Some(p.epoch)
    &&& !p.is_system ==> {
        &&& d.sender_id == Some(
            match p.sender_id {
                Some(id) => id,
                None => 0u128,
            },
        )
        &&& d.sender@ == p.sender@
        &&& d.timestamp == p.timestamp
    }
}

/// Turns fetched messages of a group into messages to show, and records the
/// highest sequence number seen for the group.
pub fn show_fetched(
    rooms: &mut HashMap<u128, Room>,
    group_id: u128,
    fetched: &[ProcessedMessage],
) -> (r: Vec<DisplayMessage>)
    ensures
        r@.len() == fetched@.len(),
        forall|i: int| 0 <= i < fetched@.len() ==> shown_as(fetched@[i], #[trigger] r@[i]),
        final(rooms)@.dom() == old(rooms)@.dom(),
        forall|g: u128|
            #[trigger] old(rooms)@.contains_key(g) && g != group_id ==> final(rooms)@[g] == old(
                rooms,
            )@[g],
        old(rooms)@.contains_key(group_id) ==> {
            &&& final(rooms)@[group_id].last_seen_seq >= old(rooms)@[group_id].last_seen_seq
            &&& forall|i: int|
                0 <= i < fetched@.len() ==> final(rooms)@[group_id].last_seen_seq
                    >= #[trigger] fetched@[i].sequence_num
            &&& (final(rooms)@[group_id].last_seen_seq == old(rooms)@[group_id].last_seen_seq
                || exists|i: int|
                0 <= i < fetched@.len() && final(rooms)@[group_id].last_seen_seq
                    == #[trigger] fetched@[i].sequence_num)
            &&& final(rooms)@[group_id] == (Room {
                last_seen_seq: final(rooms)@[group_id].last_seen_seq,
                ..old(rooms)@[group_id]
            })
        },
{
    let mut out: Vec<DisplayMessage> = Vec::new();
    let mut i: usize = 0;
    while i < fetched.len()
        invariant
            i <= fetched@.len(),
            out@.len() == i,
            forall|k: int| 0 <= k < i ==> shown_as(fetched@[k], #[trigger] out@[k]),
            rooms@.dom() == old(rooms)@.dom(),
            forall|g: u128|
                #[trigger] old(rooms)@.contains_key(g) && g != group_id ==> rooms@[g] == old(
                    rooms,
                )@[g],
            old(rooms)@.contains_key(group_id) ==> {
                &&& rooms@[group_id].last_seen_seq >= old(rooms)@[group_id].last_seen_seq
                &&& forall|k: int|
                    0 <= k < i ==> rooms@[group_id].last_seen_seq
                        >= #[trigger] fetched@[k].sequence_num
                &&& (rooms@[group_id].last_seen_seq == old(rooms)@[group_id].last_seen_seq
                    || exists|k: int|
                    0 <= k < i && rooms@[group_id].last_seen_seq
                        == #[trigger] fetched@[k].sequence_num)
                &&& rooms@[group_id] == (Room {
                    last_seen_seq: rooms@[group_id].last_seen_seq,
                    ..old(rooms)@[group_id]
                })
            },
        decreases fetched@.len() - i,
    {
        let p = &fetched[i];
        let mut d = if p.is_system {
            DisplayMessage::system(p.content.as_str())
        } else {
            let sid = match p.sender_id {
                Some(id) => id,
                None => 0u128,
            };
            DisplayMessage::user(sid, p.sender.as_str(), p.content.as_str(), p.timestamp)
        };
        d.sequence_num = Some(p.sequence_num);
        d.epoch = Some(p.epoch);
        out.push(d);
        note_seen(rooms, group_id, p.sequence_num);
        i = i + 1;
    }
    out
}

/// The rooms to catch up on after reconnecting: every room with an MLS
/// group, with the last sequence number seen in it and its MLS group ID;
/// none when no user is logged in.
pub fn catch_up_plan(state: &AppState) -> (r: Vec<(u128, u64, String)>)
    ensures
        state.username is None ==> r@.len() == 0,
        forall|i: int|
            0 <= i < r@.len() ==> {
                let (g, seq, m) = #[trigger] r@[i];
                &&& state.rooms@.contains_key(g)
                &&& state.group_mapping@.contains_key(g)
                &&& seq == state.rooms@[g].last_seen_seq
                &&& m@ == state.group_mapping@[g]@
            },
        state.username is Some ==> forall|g: u128|
            #[trigger] state.rooms@.contains_key(g) && state.group_mapping@.contains_key(g)
                ==> exists|i: int| 0 <= i < r@.len() && (#[trigger] r@[i]).0 == g,
        forall|i: int, j: int| 0 <= i < j < r@.len() ==> (#[trigger] r@[i]).0 != (#[trigger] r@[j]).0,
{
    let mut out: Vec<(u128, u64, String)> = Vec::new();
    if state.username.is_none() {
        return out;
    }
    let keys = crate::state::keys_of(&state.rooms);
    let mut k: usize = 0;
    while k < keys.len()
        invariant
            k <= keys@.len(),
            keys@.to_set() == state.rooms@.dom(),
            keys@.no_duplicates(),
            forall|i: int|
                0 <= i < out@.len() ==> {
                    let (g, seq, m) = #[trigger] out@[i];
                    &&& state.rooms@.contains_key(g)
                    &&& state.group_mapping@.contains_key(g)
                    &&& seq == state.rooms@[g].last_seen_seq
                    &&& m@ == state.group_mapping@[g]@
                },
            forall|i: int| 0 <= i < out@.len() ==> keys@.take(k as int).contains((#[trigger] out@[i]).0),
            forall|j: int|
                0 <= j < k && state.group_mapping@.contains_key(#[trigger] keys@[j]) ==> exists|i: int|
                    0 <= i < out@.len() && (#[trigger] out@[i]).0 == keys@[j],
            forall|i: int, j: int| 0 <= i < j < out@.len() ==> (#[trigger] out@[i]).0 != (#[trigger] out@[j]).0,
        decreases keys@.len() - k,
    {
        let g = keys[k];
        assert(keys@.contains(g));
        assert(keys@.take(k + 1) =~= keys@.take(k as int).push(g));
        assert(!keys@.take(k as int).contains(g)) by {
            if keys@.take(k as int).contains(g) {
                let t = choose|t: int| 0 <= t < k && #[trigger] keys@.take(k as int)[t] == g;
                assert(keys@[t] == keys@[k as int]);
            }
        }
        let room = state.rooms.get(&g).unwrap();
        match state.group_mapping.get(&g) {
            Some(m) => {
                let ghost before = out@;
                out.push((g, room.last_seen_seq, crate::text::owned(m.as_str())));
                assert forall|i: int| 0 <= i < out@.len() implies keys@.take(k + 1).contains(
                    (#[trigger] out@[i]).0,
                ) by {
                    if i < before.len() {
                        assert(keys@.take(k as int).contains(before[i].0));
                        let t = choose|t: int| 0 <= t < k && #[trigger] keys@.take(k as int)[t] == before[i].0;
                        assert(keys@.take(k + 1)[t] == before[i].0);
                    } else {
                        assert(keys@.take(k + 1)[k as int] == g);
                    }
                }
                assert forall|j: int|
                    0 <= j < k + 1 && state.group_mapping@.contains_key(#[trigger] keys@[j]) implies exists|i: int|
                    0 <= i < out@.len() && (#[trigger] out@[i]).0 == keys@[j] by {
                    if j == k {
                        assert(out@[before.len() as int].0 == keys@[j]);
                    } else {
                        let i0 = choose|i: int| 0 <= i < before.len() && (#[trigger] before[i]).0 == keys@[j];
                        assert(out@[i0] == before[i0]);
                    }
                }
            },
            None => {
                assert forall|i: int| 0 <= i < out@.len() implies keys@.take(k + 1).contains(
                    (#[trigger] out@[i]).0,
                ) by {
                    let t = choose|t: int| 0 <= t < k && #[trigger] keys@.take(k as int)[t] == out@[i].0;
                    assert(keys@.take(k + 1)[t] == out@[i].0);
                }
            },
        }
        k = k + 1;
    }
    proof {
        assert forall|g: u128|
            #[trigger] state.rooms@.contains_key(g) && state.group_mapping@.contains_key(g) implies exists|i: int|
            0 <= i < out@.len() && (#[trigger] out@[i]).0 == g by {
            assert(keys@.to_set().contains(g));
            let j = choose|j: int| 0 <= j < keys@.len() && #[trigger] keys@[j] == g;
            assert(state.group_mapping@.contains_key(keys@[j]));
        }
    }
    out
}

} // verus!

//! What the terminal interface does with the outcome of a request that a
//! command made (see `cli::plan`): the state it changes and the messages it
//! shows.

use vstd::prelude::*;

use crate::cli::commands::{left_room, room_name, room_name_or_empty};
use crate::cli::replies::{accepted_line, joined_line_spec, welcome_joined_line};
use crate::cli::state::AppState;
use crate::command::strings_view;
use crate::duration::{format_duration, format_duration_spec};
use crate::ids::{uuid_text_spec, uuid_to_string};
use crate::operations::WelcomeJoinResult;
use crate::state::{DisplayMessage, Room, VerificationStatus};
use crate::text::{push_all, push_str, string_from_chars};
use crate::tui::commands::{join_names, joined_spec};

verus! {

broadcast use vstd::std_specs::hash::group_hash_axioms;

/// A system message with the given text.
fn notice(out: Vec<char>) -> (m: DisplayMessage)
    ensures
        m.is_system,
        m.content@ == out@,
{
    let text = string_from_chars(out.as_slice());
    DisplayMessage::system(text.as_str())
}

/// The line after logging in or registering: `Logged in as <name> (user ID
/// <id>)`, or `Registered and logged in as ...` after registering.
pub open spec fn logged_in_line_spec(registered: bool, username: Seq<char>, user_id: u128) -> Seq<
    char,
> {
    (if registered {
        "Registered and logged in as "@
    } else {
        "Logged in as "@
    }) + username + " (user ID "@ + uuid_text_spec(user_id) + ")"@
}

/// Records a login: the user's name and ID, logged in; returns the line to
/// show.
pub fn logged_in(state: &mut AppState, username: &str, user_id: u128, registered: bool) -> (m:
    DisplayMessage)
    ensures
        m.is_system,
        m.content@ == logged_in_line_spec(registered, username@, user_id),
        final(state).username matches Some(u) && u@ == username@,
        final(state).user_id == Some(user_id),
        final(state).logged_in,
        final(state).rooms == old(state).rooms,
        final(state).group_mapping == old(state).group_mapping,
        final(state).active_room == old(state).active_room,
        final(state).room_messages == old(state).room_messages,
{
    state.username = Some(crate::text::owned(username));
    state.user_id = Some(user_id);
    state.logged_in = true;
    let mut out: Vec<char> = Vec::new();
    if registered {
        push_str(&mut out, "Registered and logged in as ");
    } else {
        push_str(&mut out, "Logged in as ");
    }
    push_str(&mut out, username);
    push_str(&mut out, " (user ID ");
    let id = uuid_to_string(user_id);
    push_str(&mut out, id.as_str());
    push_str(&mut out, ")");
    notice(out)
}

/// Forgets the session after logging out or deleting the account, and
/// returns the line to show for either.
pub fn logged_out(state: &mut AppState, deleted: bool) -> (m: DisplayMessage)
    ensures
        m.is_system,
        m.content@ == (if deleted {
            "Account permanently deleted. All data has been wiped."@
        } else {
            "Logged out. Session revoked."@
        }),
        !final(state).logged_in,
        final(state).username is None,
        final(state).user_id is None,
        final(state).active_room is None,
        final(state).rooms@ == Map::<u128, Room>::empty(),
        final(state).group_mapping@ == Map::<u128, String>::empty(),
        final(state).room_messages == old(state).room_messages,
{
    crate::cli::commands::clear_login(state);
    if deleted {
        DisplayMessage::system("Account permanently deleted. All data has been wiped.")
    } else {
        DisplayMessage::system("Logged out. Session revoked.")
    }
}

/// Records a group that was created (its room having been loaded): its MLS
/// group, and the view switches to it.
pub fn created_room(state: &mut AppState, name: &str, group_id: u128, mls_group_id: String) -> (m:
    DisplayMessage)
    ensures
        m.is_system,
        m.content@ == "Created and joined #"@ + name@ + " ("@ + uuid_text_spec(group_id) + ")"@,
        final(state).group_mapping@ == old(state).group_mapping@.insert(group_id, mls_group_id),
        final(state).active_room == Some(group_id),
        final(state).scroll_offset == 0,
        final(state).rooms == old(state).rooms,
        final(state).room_messages == old(state).room_messages,
{
    state.group_mapping.insert(group_id, mls_group_id);
    state.active_room = Some(group_id);
    state.scroll_offset = 0;
    let mut out: Vec<char> = Vec::new();
    push_str(&mut out, "Created and joined #");
    push_str(&mut out, name);
    push_str(&mut out, " (");
    let id = uuid_to_string(group_id);
    push_str(&mut out, id.as_str());
    push_str(&mut out, ")");
    notice(out)
}

/// The groups joined or accepted, as plain values.
pub open spec fn alias_view(a: Option<String>) -> Option<Seq<char>> {
    match a {
        Some(s) => Some(s@),
        None => None,
    }
}

/// A group mapping with its MLS group IDs as character sequences.
pub open spec fn mapping_view(m: Map<u128, String>) -> Map<u128, Seq<char>> {
    m.map_values(|s: String| s@)
}

/// The mapping after recording the MLS group of each joined group, in
/// order.
pub open spec fn mapping_after(m: Map<u128, Seq<char>>, joined: Seq<WelcomeJoinResult>) -> Map<
    u128,
    Seq<char>,
>
    decreases joined.len(),
{
    if joined.len() == 0 {
        m
    } else {
        mapping_after(m, joined.drop_last()).insert(
            joined.last().group_id,
            joined.last().mls_group_id@,
        )
    }
}

/// Records groups that were joined: their MLS groups, one line each with
/// `verb`; returns the lines.
fn record_joined(state: &mut AppState, joined: &[WelcomeJoinResult], accepted: bool) -> (r: Vec<
    DisplayMessage,
>)
    ensures
        r@.len() == joined@.len(),
        forall|i: int|
            0 <= i < joined@.len() ==> (#[trigger] r@[i]).is_system && r@[i].content@
                == joined_line_spec(
                if accepted {
                    "Accepted invitation to"@
                } else {
                    "Joined"@
                },
                joined@[i].group_id,
                alias_view(joined@[i].group_alias),
            ),
        mapping_view(final(state).group_mapping@) == mapping_after(
            mapping_view(old(state).group_mapping@),
            joined@,
        ),
        final(state).rooms == old(state).rooms,
        final(state).active_room == old(state).active_room,
        final(state).scroll_offset == old(state).scroll_offset,
        final(state).room_messages == old(state).room_messages,
{
    let mut r: Vec<DisplayMessage> = Vec::new();
    let mut i: usize = 0;
    while i < joined.len()
        invariant
            i <= joined@.len(),
            r@.len() == i,
            forall|k: int|
                0 <= k < i ==> (#[trigger] r@[k]).is_system && r@[k].content@ == joined_line_spec(
                    if accepted {
                        "Accepted invitation to"@
                    } else {
                        "Joined"@
                    },
                    joined@[k].group_id,
                    alias_view(joined@[k].group_alias),
                ),
            mapping_view(state.group_mapping@) == mapping_after(
                mapping_view(old(state).group_mapping@),
                joined@.take(i as int),
            ),
            state.rooms == old(state).rooms,
            state.active_room == old(state).active_room,
            state.scroll_offset == old(state).scroll_offset,
            state.room_messages == old(state).room_messages,
        decreases joined@.len() - i,
    {
        let j = &joined[i];
        proof {
            assert(joined@.take(i + 1).drop_last() =~= joined@.take(i as int));
        }
        let ghost before = state.group_mapping@;
        state.group_mapping.insert(j.group_id, crate::text::owned(j.mls_group_id.as_str()));
        proof {
            assert(mapping_view(state.group_mapping@) =~= mapping_view(before).insert(
                j.group_id,
                j.mls_group_id@,
            ));
        }
        let alias: Option<&str> = match &j.group_alias {
            Some(a) => Some(a.as_str()),
            None => None,
        };
        assert(match alias {
            Some(a) => alias_view(j.group_alias) == Some(a@),
            None => alias_view(j.group_alias) is None,
        });
        let line = if accepted {
            accepted_line(j.group_id, alias)
        } else {
            welcome_joined_line(j.group_id, alias)
        };
        r.push(DisplayMessage::system(line.as_str()));
        i = i + 1;
    }
    proof {
        assert(joined@.take(joined@.len() as int) =~= joined@);
    }
    r
}

/// The reply to joining through welcomes: one line per group joined, or
/// `No pending invitations.`; the view switches to the last group joined.
pub fn joined_welcomes(state: &mut AppState, joined: &[WelcomeJoinResult]) -> (r: Vec<
    DisplayMessage,
>)
    ensures
        joined@.len() == 0 ==> r@.len() == 1 && r@[0].content@ == "No pending invitations."@
            && *final(state) == *old(state),
        joined@.len() > 0 ==> {
            &&& r@.len() == joined@.len()
            &&& forall|i: int|
                0 <= i < joined@.len() ==> (#[trigger] r@[i]).content@ == joined_line_spec(
                    "Joined"@,
                    joined@[i].group_id,
                    alias_view(joined@[i].group_alias),
                )
            &&& final(state).active_room == Some(joined@.last().group_id)
            &&& final(state).scroll_offset == 0
            &&& mapping_view(final(state).group_mapping@) == mapping_after(
                mapping_view(old(state).group_mapping@),
                joined@,
            )
            &&& final(state).rooms == old(state).rooms
        },
        forall|i: int| 0 <= i < r@.len() ==> (#[trigger] r@[i]).is_system,
        final(state).room_messages == old(state).room_messages,
{
    if joined.len() == 0 {
        return vec![DisplayMessage::system("No pending invitations.")];
    }
    let r = record_joined(state, joined, false);
    state.active_room = Some(joined[joined.len() - 1].group_id);
    state.scroll_offset = 0;
    r
}

/// The reply to accepting invitations: one line per group, or
/// `No pending invitations to accept.` when there was none to accept.
pub fn accepted_invites(state: &mut AppState, joined: &[WelcomeJoinResult], any: bool) -> (r: Vec<
    DisplayMessage,
>)
    ensures
        !any ==> r@.len() == 1 && r@[0].content@ == "No pending invitations to accept."@
            && *final(state) == *old(state),
        any ==> {
            &&& r@.len() == joined@.len()
            &&& forall|i: int|
                0 <= i < joined@.len() ==> (#[trigger] r@[i]).content@ == joined_line_spec(
                    "Accepted invitation to"@,
                    joined@[i].group_id,
                    alias_view(joined@[i].group_alias),
                )
            &&& mapping_view(final(state).group_mapping@) == mapping_after(
                mapping_view(old(state).group_mapping@),
                joined@,
            )
            &&& final(state).rooms == old(state).rooms
            &&& final(state).active_room == old(state).active_room
        },
        forall|i: int| 0 <= i < r@.len() ==> (#[trigger] r@[i]).is_system,
        final(state).room_messages == old(state).room_messages,
{
    if !any {
        return vec![DisplayMessage::system("No pending invitations to accept.")];
    }
    record_joined(state, joined, true)
}

/// Leaves a group's room after the server let the user go: forgets the room
/// and its MLS group, and returns `Left #<name>`.
pub fn parted(state: &mut AppState, group_id: u128) -> (m: DisplayMessage)
    ensures
        m.is_system,
        m.content@ == "Left #"@ + room_name_or_empty(old(state).rooms@, group_id),
        final(state).rooms@ == old(state).rooms@.remove(group_id),
        final(state).group_mapping@ == old(state).group_mapping@.remove(group_id),
        final(state).active_room is None,
        final(state).scroll_offset == 0,
        final(state).room_messages == old(state).room_messages,
{
    let name = room_name(&state.rooms, group_id);
    left_room(state, group_id);
    let mut out: Vec<char> = Vec::new();
    push_str(&mut out, "Left #");
    push_str(&mut out, name.as_str());
    notice(out)
}

/// Forgets a group that was deleted, with its messages, and returns
/// `Room #<name> has been deleted`.
pub fn room_deleted(state: &mut AppState, group_id: u128) -> (m: DisplayMessage)
    ensures
        m.is_system,
        m.content@ == "Room #"@ + room_name_or_empty(old(state).rooms@, group_id)
            + " has been deleted"@,
        final(state).rooms@ == old(state).rooms@.remove(group_id),
        final(state).group_mapping@ == old(state).group_mapping@.remove(group_id),
        final(state).room_messages@ == old(state).room_messages@.remove(group_id),
        final(state).active_room is None,
        final(state).scroll_offset == 0,
{
    let name = room_name(&state.rooms, group_id);
    crate::cli::commands::deleted_room(state, group_id);
    let mut out: Vec<char> = Vec::new();
    push_str(&mut out, "Room #");
    push_str(&mut out, name.as_str());
    push_str(&mut out, " has been deleted");
    notice(out)
}

/// The line after a room's expiry was set.
pub fn expiry_set_line(seconds: i64) -> (r: String)
    ensures
        r@ == "Message expiry set to "@ + format_duration_spec(seconds),
{
    let d = format_duration(seconds);
    let mut out: Vec<char> = Vec::new();
    push_str(&mut out, "Message expiry set to ");
    push_str(&mut out, d.as_str());
    string_from_chars(out.as_slice())
}

/// What a completed request about a member or the profile reports.
pub enum Done {
    Kicked,
    Promoted,
    Demoted,
    Uninvited,
    AliasSet,
    TopicSet,
}

/// The line a completed request shows, about the name or text given.
pub open spec fn done_line_spec(d: Done, x: Seq<char>) -> Seq<char> {
    match d {
        Done::Kicked => "Removed "@ + x + " from the room"@,
        Done::Promoted => "Promoted "@ + x + " to admin"@,
        Done::Demoted => "Demoted "@ + x + " to regular member"@,
        Done::Uninvited => "Cancelled invitation for "@ + x,
        Done::AliasSet => "Alias set to: "@ + x,
        Done::TopicSet => "Room alias set to: "@ + x,
    }
}

/// The line a completed request shows.
pub fn done_line(d: Done, x: &str) -> (m: DisplayMessage)
    ensures
        m.is_system,
        m.content@ == done_line_spec(d, x@),
{
    let mut out: Vec<char> = Vec::new();
    match d {
        Done::Kicked => {
            push_str(&mut out, "Removed ");
            push_str(&mut out, x);
            push_str(&mut out, " from the room");
        },
        Done::Promoted => {
            push_str(&mut out, "Promoted ");
            push_str(&mut out, x);
            push_str(&mut out, " to admin");
        },
        Done::Demoted => {
            push_str(&mut out, "Demoted ");
            push_str(&mut out, x);
            push_str(&mut out, " to regular member");
        },
        Done::Uninvited => {
            push_str(&mut out, "Cancelled invitation for ");
            push_str(&mut out, x);
        },
        Done::AliasSet => {
            push_str(&mut out, "Alias set to: ");
            push_str(&mut out, x);
        },
        Done::TopicSet => {
            push_str(&mut out, "Room alias set to: ");
            push_str(&mut out, x);
        },
    }
    notice(out)
}

/// The names of the invited users, in the order the server reports them,
/// each as it was asked for; IDs that were not asked for are left out.
pub open spec fn invited_names_spec(asked: Seq<(u128, String)>, invited: Seq<u128>) -> Seq<
    Seq<char>,
>
    decreases invited.len(),
{
    if invited.len() == 0 {
        Seq::empty()
    } else {
        let id = invited.last();
        invited_names_spec(asked, invited.drop_last()) + if exists|k: int|
            0 <= k < asked.len() && (#[trigger] asked[k]).0 == id {
            seq![
                asked[choose|k: int|
                    0 <= k < asked.len() && (#[trigger] asked[k]).0 == id && forall|j: int|
                        0 <= j < k ==> (#[trigger] asked[j]).0 != id].1@,
            ]
        } else {
            Seq::empty()
        }
    }
}

/// The name asked for with the first matching ID.
fn asked_name(asked: &[(u128, String)], id: u128) -> (r: Option<String>)
    ensures
        match r {
            Some(n) => exists|k: int|
                0 <= k < asked@.len() && (#[trigger] asked@[k]).0 == id && n@ == asked@[choose|
                    k: int|
                    0 <= k < asked@.len() && (#[trigger] asked@[k]).0 == id && forall|j: int|
                        0 <= j < k ==> (#[trigger] asked@[j]).0 != id].1@,
            None => !exists|k: int| 0 <= k < asked@.len() && (#[trigger] asked@[k]).0 == id,
        },
{
    let mut i: usize = 0;
    while i < asked.len()
        invariant
            i <= asked@.len(),
            forall|j: int| 0 <= j < i ==> (#[trigger] asked@[j]).0 != id,
        decreases asked@.len() - i,
    {
        if asked[i].0 == id {
            proof {
                let k = choose|k: int|
                    0 <= k < asked@.len() && (#[trigger] asked@[k]).0 == id && forall|j: int|
                        0 <= j < k ==> (#[trigger] asked@[j]).0 != id;
                assert(asked@[i as int].0 == id);
                if k < i {
                    assert(asked@[k].0 != id);
                } else if k > i {
                    assert(asked@[i as int].0 != id);
                }
            }
            return Some(crate::text::owned(asked[i].1.as_str()));
        }
        i = i + 1;
    }
    None
}

/// The reply to an invitation: `No new members to invite.` when nobody new
/// was invited, otherwise `Invited <names> to the room`.
pub fn invited_line(asked: &[(u128, String)], invited: &[u128]) -> (m: DisplayMessage)
    ensures
        m.is_system,
        m.content@ == (if invited@.len() == 0 {
            "No new members to invite."@
        } else {
            "Invited "@ + joined_spec(invited_names_spec(asked@, invited@)) + " to the room"@
        }),
{
    if invited.len() == 0 {
        return DisplayMessage::system("No new members to invite.");
    }
    let mut names: Vec<String> = Vec::new();
    let mut i: usize = 0;
    while i < invited.len()
        invariant
            i <= invited@.len(),
            strings_view(names@) == invited_names_spec(asked@, invited@.take(i as int)),
        decreases invited@.len() - i,
    {
        proof {
            assert(invited@.take(i + 1).drop_last() =~= invited@.take(i as int));
            assert(invited@.take(i + 1).last() == invited@[i as int]);
        }
        let ghost before = strings_view(names@);
        match asked_name(asked, invited[i]) {
            Some(n) => {
                names.push(n);
                assert(strings_view(names@) =~= before.push(n@));
                assert(strings_view(names@) =~= invited_names_spec(asked@, invited@.take(i + 1)));
            },
            None => {
                assert(strings_view(names@) =~= invited_names_spec(asked@, invited@.take(i + 1)));
            },
        }
        i = i + 1;
    }
    proof {
        assert(invited@.take(invited@.len() as int) =~= invited@);
    }
    let list = join_names(names.as_slice());
    let mut out: Vec<char> = Vec::new();
    push_str(&mut out, "Invited ");
    push_all(&mut out, list.as_slice());
    push_str(&mut out, " to the room");
    notice(out)
}

/// Records that a user's verification was removed: their key shows as
/// unverified; or says that nothing was stored for them.
pub fn unverified(state: &mut AppState, username: &str, user_id: u128, found: bool) -> (m:
    DisplayMessage)
    ensures
        m.is_system,
        found ==> m.content@ == "Removed verification for "@ + username@ + "."@
            && final(state).verification_status@ == old(state).verification_status@.insert(
            user_id,
            VerificationStatus::Unverified,
        ),
        !found ==> m.content@ == "No stored fingerprint for "@ + username@ + "."@
            && final(state).verification_status == old(state).verification_status,
        final(state).rooms == old(state).rooms,
        final(state).group_mapping == old(state).group_mapping,
        final(state).room_messages == old(state).room_messages,
        final(state).active_room == old(state).active_room,
{
    let mut out: Vec<char> = Vec::new();
    if found {
        state.verification_status.insert(user_id, VerificationStatus::Unverified);
        push_str(&mut out, "Removed verification for ");
    } else {
        push_str(&mut out, "No stored fingerprint for ");
    }
    push_str(&mut out, username);
    push_str(&mut out, ".");
    notice(out)
}

/// Restores a saved login at start-up: with a saved token, the saved user
/// is logged in; without one nothing changes.
pub fn restore_login(
    state: &mut AppState,
    has_token: bool,
    username: Option<String>,
    user_id: Option<u128>,
)
    ensures
        has_token ==> {
            &&& final(state).logged_in
            &&& final(state).username == username
            &&& final(state).user_id == user_id
            &&& final(state).rooms == old(state).rooms
            &&& final(state).group_mapping == old(state).group_mapping
            &&& final(state).active_room == old(state).active_room
            &&& final(state).room_messages == old(state).room_messages
        },
        !has_token ==> *final(state) == *old(state),
{
    if has_token {
        state.username = username;
        state.user_id = user_id;
        state.logged_in = true;
    }
}

/// The greeting at start-up.
pub fn greeting(state: &AppState) -> (m: DisplayMessage)
    ensures
        m.is_system,
        m.content@ == (if state.logged_in {
            "Welcome back, "@ + (match state.username {
                Some(u) => u@,
                None => Seq::empty(),
            }) + ". Type /help for commands."@
        } else {
            "Welcome to Conclave. Use /register and /login to get started. Type /help for commands."@
        }),
{
    if state.logged_in {
        let mut out: Vec<char> = Vec::new();
        push_str(&mut out, "Welcome back, ");
        match &state.username {
            Some(u) => push_str(&mut out, u.as_str()),
            None => {},
        }
        push_str(&mut out, ". Type /help for commands.");
        notice(out)
    } else {
        DisplayMessage::system(
            "Welcome to Conclave. Use /register and /login to get started. Type /help for commands.",
        )
    }
}

/// Restores a room from the message store at start-up: its sequence numbers
/// as stored, and its stored history after the messages already listed.
pub fn restore_room(
    state: &mut AppState,
    group_id: u128,
    last_seen: u64,
    last_read: u64,
    history: Vec<DisplayMessage>,
)
    ensures
        final(state).rooms@.dom() == old(state).rooms@.dom(),
        forall|g: u128|
            #[trigger] old(state).rooms@.contains_key(g) && g != group_id ==> final(state).rooms@[g]
                == old(state).rooms@[g],
        old(state).rooms@.contains_key(group_id) ==> final(state).rooms@[group_id] == (Room {
            last_seen_seq: last_seen,
            last_read_seq: last_read,
            ..old(state).rooms@[group_id]
        }),
        history@.len() == 0 ==> final(state).room_messages == old(state).room_messages,
        history@.len() > 0 ==> crate::state::lists_view(final(state).room_messages@)
            == crate::state::lists_view(old(state).room_messages@).insert(
            group_id,
            (if old(state).room_messages@.contains_key(group_id) {
                old(state).room_messages@[group_id]@
            } else {
                Seq::empty()
            }) + history@,
        ),
        final(state).group_mapping == old(state).group_mapping,
        final(state).active_room == old(state).active_room,
{
    let ghost before = state.rooms@;
    match state.rooms.remove(&group_id) {
        Some(room) => {
            let Room {
                server_group_id,
                group_name,
                alias,
                members,
                last_seen_seq: _,
                last_read_seq: _,
                message_expiry_seconds,
            } = room;
            state.rooms.insert(
                group_id,
                Room {
                    server_group_id,
                    group_name,
                    alias,
                    members,
                    last_seen_seq: last_seen,
                    last_read_seq: last_read,
                    message_expiry_seconds,
                },
            );
            assert(state.rooms@.dom() =~= before.dom());
        },
        None => {},
    }
    if history.len() > 0 {
        let ghost msgs0 = state.room_messages@;
        let mut list = match state.room_messages.remove(&group_id) {
            Some(v) => v,
            None => Vec::new(),
        };
        let ghost list0 = list@;
        let mut h = history;
        list.append(&mut h);
        state.room_messages.insert(group_id, list);
        proof {
            assert(crate::state::lists_view(state.room_messages@) =~= crate::state::lists_view(
                msgs0,
            ).insert(group_id, list0 + history@));
        }
    }
}

} // verus!

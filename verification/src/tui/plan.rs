//! What a command of the interactive client needs before anything is sent
//! to the server, and what the client does with the outcome of a request:
//! the state it changes and the messages it shows. Making the requests and
//! running MLS is left to the caller.

use vstd::prelude::*;

use crate::ids::{uuid_text_spec, uuid_to_string};
use crate::text::{owned, push_str, string_from_chars};
use crate::tui::commands::{join_pick, joinable, resolve_join_target, Command, CommandView};
use crate::tui::state::{AppState, DisplayMessage, Room};

verus! {

broadcast use vstd::std_specs::hash::group_hash_axioms;

/// What carrying out a command takes.
#[allow(inconsistent_fields)]
pub enum Plan {
    /// Carried out on local state alone (see `tui::commands`).
    Local,
    /// Answered at once with this message, without a request.
    Reply(String),
    /// Refused before any request, with this error text.
    Refused(String),
    /// A request that needs only the session.
    Session,
    /// A request that needs the MLS identity.
    Identity,
    /// Resetting the account of the named user.
    Reset { username: String },
    /// Leaving the active room.
    Leave { group_id: u128 },
    /// An MLS operation on a room's group: the active one, or the one a
    /// `/msg` names.
    Group { group_id: u128, mls_group_id: String },
    /// Counting unread messages in every room.
    Unread,
}

/// A plan with its text as character sequences.
#[allow(inconsistent_fields)]
pub enum PlanView {
    Local,
    Reply(Seq<char>),
    Refused(Seq<char>),
    Session,
    Identity,
    Reset { username: Seq<char> },
    Leave { group_id: u128 },
    Group { group_id: u128, mls_group_id: Seq<char> },
    Unread,
}

impl View for Plan {
    type V = PlanView;

    open spec fn view(&self) -> PlanView {
        match *self {
            Plan::Local => PlanView::Local,
            Plan::Reply(m) => PlanView::Reply(m@),
            Plan::Refused(m) => PlanView::Refused(m@),
            Plan::Session => PlanView::Session,
            Plan::Identity => PlanView::Identity,
            Plan::Reset { username } => PlanView::Reset { username: username@ },
            Plan::Leave { group_id } => PlanView::Leave { group_id },
            Plan::Group { group_id, mls_group_id } => PlanView::Group {
                group_id,
                mls_group_id: mls_group_id@,
            },
            Plan::Unread => PlanView::Unread,
        }
    }
}

/// The refusal without an active room.
pub open spec fn no_room_msg() -> Seq<char> {
    "no active room \u{2014} use /join first"@
}

/// An MLS operation on a group, once the group is known: refused without
/// its MLS group.
pub open spec fn group_spec(s: AppState, g: u128) -> PlanView {
    if s.group_mapping@.contains_key(g) {
        PlanView::Group { group_id: g, mls_group_id: s.group_mapping@[g]@ }
    } else {
        PlanView::Refused("group mapping not found"@)
    }
}

/// An MLS operation on the active room's group.
pub open spec fn active_group_spec(s: AppState) -> PlanView {
    match s.active_room {
        None => PlanView::Refused(no_room_msg()),
        Some(g) => group_spec(s, g),
    }
}

/// What each command other than `/msg` takes, checked in the order the
/// client checks it; `has_mls` says whether the MLS identity is loaded.
pub open spec fn plan_spec(s: AppState, has_mls: bool, c: CommandView) -> PlanView {
    match c {
        CommandView::Register { .. } | CommandView::Login { .. } | CommandView::Rooms
        | CommandView::Me => PlanView::Session,
        CommandView::Join { target: Some(_) } | CommandView::Part | CommandView::Who
        | CommandView::Help | CommandView::Quit => PlanView::Local,
        CommandView::Leave => match s.active_room {
            None => PlanView::Refused(no_room_msg()),
            Some(g) => PlanView::Leave { group_id: g },
        },
        CommandView::Unread => if !s.logged_in {
            PlanView::Reply("Not logged in."@)
        } else if s.rooms@.dom().len() == 0 {
            PlanView::Reply("No rooms."@)
        } else {
            PlanView::Unread
        },
        CommandView::Logout => if s.logged_in {
            PlanView::Session
        } else {
            PlanView::Reply("Not logged in."@)
        },
        _ => if !has_mls {
            PlanView::Refused("not logged in"@)
        } else {
            match c {
                CommandView::Keygen | CommandView::Create { .. } | CommandView::Join {
                    target: None,
                } => PlanView::Identity,
                CommandView::Reset => match s.username {
                    None => PlanView::Refused("not logged in"@),
                    Some(u) => PlanView::Reset { username: u@ },
                },
                _ => active_group_spec(s),
            }
        },
    }
}

/// The refusal text of a missing MLS group.
fn mapping_of(state: &AppState, g: u128) -> (p: Plan)
    ensures
        p@ == group_spec(*state, g),
{
    match state.group_mapping.get(&g) {
        Some(m) => Plan::Group { group_id: g, mls_group_id: owned(m.as_str()) },
        None => Plan::Refused(owned("group mapping not found")),
    }
}

/// What `/msg` takes: the MLS identity, then a room that the target names
/// (any one that `/join` could pick), then that room's MLS group.
pub open spec fn msg_plan_ok(s: AppState, has_mls: bool, room: Seq<char>, p: PlanView) -> bool {
    if !has_mls {
        p == PlanView::Refused("not logged in"@)
    } else if !joinable(s.rooms@, room) {
        p == PlanView::Refused("Unknown room '"@ + room + "'"@)
    } else {
        exists|g: u128| #[trigger] join_pick(s.rooms@, room, g) && p == group_spec(s, g)
    }
}

/// What a command takes before anything is sent.
#[verifier::rlimit(30)]
pub fn plan(state: &AppState, has_mls: bool, cmd: &Command) -> (p: Plan)
    ensures
        match cmd@ {
            CommandView::Msg { room, .. } => msg_plan_ok(*state, has_mls, room, p@),
            c => p@ == plan_spec(*state, has_mls, c),
        },
{
    match cmd {
        Command::Register { .. } | Command::Login { .. } | Command::Rooms | Command::Me => {
            Plan::Session
        },
        Command::Join { target: Some(_) } | Command::Part | Command::Who | Command::Help
        | Command::Quit => Plan::Local,
        Command::Leave => match state.active_room {
            None => Plan::Refused(owned("no active room \u{2014} use /join first")),
            Some(g) => Plan::Leave { group_id: g },
        },
        Command::Unread => if !state.logged_in {
            Plan::Reply(owned("Not logged in."))
        } else if state.rooms.len() == 0 {
            Plan::Reply(owned("No rooms."))
        } else {
            Plan::Unread
        },
        Command::Logout => if state.logged_in {
            Plan::Session
        } else {
            Plan::Reply(owned("Not logged in."))
        },
        _ => {
            if !has_mls {
                return Plan::Refused(owned("not logged in"));
            }
            match cmd {
                Command::Keygen | Command::Create { .. } | Command::Join { target: None } => {
                    Plan::Identity
                },
                Command::Reset => match &state.username {
                    None => Plan::Refused(owned("not logged in")),
                    Some(u) => Plan::Reset { username: owned(u.as_str()) },
                },
                Command::Msg { room, .. } => match resolve_join_target(state, room.as_str()) {
                    Some(g) => mapping_of(state, g),
                    None => {
                        let mut out: Vec<char> = Vec::new();
                        push_str(&mut out, "Unknown room '");
                        push_str(&mut out, room.as_str());
                        push_str(&mut out, "'");
                        Plan::Refused(string_from_chars(out.as_slice()))
                    },
                },
                _ => match state.active_room {
                    None => Plan::Refused(owned("no active room \u{2014} use /join first")),
                    Some(g) => mapping_of(state, g),
                },
            }
        },
    }
}

/// The line after logging in or registering.
pub open spec fn logged_in_line_spec(registered: bool, username: Seq<char>, user_id: u64) -> Seq<
    char,
> {
    if registered {
        "Registered as user ID "@ + crate::text::decimal_spec(user_id as nat)
    } else {
        "Logged in as "@ + username + " (user ID "@ + crate::text::decimal_spec(user_id as nat)
            + ")"@
    }
}

/// Records a login: the user's name and ID, logged in; returns the line to
/// show.
pub fn logged_in(state: &mut AppState, username: &str, user_id: u64) -> (m: DisplayMessage)
    ensures
        m.is_system,
        m.content@ == logged_in_line_spec(false, username@, user_id),
        final(state).username matches Some(u) && u@ == username@,
        final(state).user_id == Some(user_id),
        final(state).logged_in,
        final(state).rooms == old(state).rooms,
        final(state).active_room == old(state).active_room,
        final(state).room_messages == old(state).room_messages,
{
    state.username = Some(owned(username));
    state.user_id = Some(user_id);
    state.logged_in = true;
    let mut out: Vec<char> = Vec::new();
    push_str(&mut out, "Logged in as ");
    push_str(&mut out, username);
    push_str(&mut out, " (user ID ");
    let digits = crate::text::u64_to_chars(user_id);
    crate::text::push_all(&mut out, digits.as_slice());
    push_str(&mut out, ")");
    let text = string_from_chars(out.as_slice());
    DisplayMessage::system(text.as_str())
}

/// Records a created group: its MLS group, and the view switches to it
/// (its room having been loaded); returns the line to show.
pub fn created(state: &mut AppState, name: &str, group_id: u128, mls_group_id: &str) -> (m:
    DisplayMessage)
    ensures
        m.is_system,
        m.content@ == "Created and joined #"@ + name@ + " ("@ + uuid_text_spec(group_id) + ")"@,
        final(state).group_mapping@.dom() == old(state).group_mapping@.dom().insert(group_id),
        final(state).group_mapping@[group_id]@ == mls_group_id@,
        forall|g: u128|
            #[trigger] old(state).group_mapping@.contains_key(g) && g != group_id
                ==> final(state).group_mapping@[g] == old(state).group_mapping@[g],
        final(state).active_room == Some(group_id),
        final(state).scroll_offset == 0,
        final(state).rooms == old(state).rooms,
        final(state).room_messages == old(state).room_messages,
{
    state.group_mapping.insert(group_id, owned(mls_group_id));
    state.active_room = Some(group_id);
    state.scroll_offset = 0;
    let mut out: Vec<char> = Vec::new();
    push_str(&mut out, "Created and joined #");
    push_str(&mut out, name);
    push_str(&mut out, " (");
    let id = uuid_to_string(group_id);
    push_str(&mut out, id.as_str());
    push_str(&mut out, ")");
    let text = string_from_chars(out.as_slice());
    DisplayMessage::system(text.as_str())
}

/// Forgets a room that was left, with its MLS group, and returns
/// `Left #<name>`.
pub fn left(state: &mut AppState, group_id: u128) -> (m: DisplayMessage)
    ensures
        m.is_system,
        m.content@ == "Left #"@ + (if old(state).rooms@.contains_key(group_id) {
            old(state).rooms@[group_id].name@
        } else {
            Seq::empty()
        }),
        final(state).rooms@ == old(state).rooms@.remove(group_id),
        final(state).group_mapping@ == old(state).group_mapping@.remove(group_id),
        final(state).active_room is None,
        final(state).scroll_offset == 0,
        final(state).room_messages == old(state).room_messages,
{
    let name = match state.rooms.get(&group_id) {
        Some(r) => owned(r.name.as_str()),
        None => String::new(),
    };
    state.group_mapping.remove(&group_id);
    state.rooms.remove(&group_id);
    state.active_room = None;
    state.scroll_offset = 0;
    let mut out: Vec<char> = Vec::new();
    push_str(&mut out, "Left #");
    push_str(&mut out, name.as_str());
    let text = string_from_chars(out.as_slice());
    DisplayMessage::system(text.as_str())
}

/// Records a message this user sent to a group: it joins the group's list,
/// and the highest sequence number seen there rises to the one the server
/// gave it.
pub fn sent(state: &mut AppState, group_id: u128, msg: DisplayMessage, sequence_num: u64)
    ensures
        crate::tui::state::message_lists(final(state).room_messages@) == crate::tui::state::message_lists(
            old(state).room_messages@,
        ).insert(
            group_id,
            if old(state).room_messages@.contains_key(group_id) {
                old(state).room_messages@[group_id]@.push(msg)
            } else {
                seq![msg]
            },
        ),
        final(state).rooms@.dom() == old(state).rooms@.dom(),
        forall|g: u128|
            #[trigger] old(state).rooms@.contains_key(g) && g != group_id ==> final(state).rooms@[g]
                == old(state).rooms@[g],
        old(state).rooms@.contains_key(group_id) ==> final(state).rooms@[group_id] == (Room {
            last_seen_seq: if old(state).rooms@[group_id].last_seen_seq < sequence_num {
                sequence_num
            } else {
                old(state).rooms@[group_id].last_seen_seq
            },
            ..old(state).rooms@[group_id]
        }),
        final(state).active_room == old(state).active_room,
        final(state).group_mapping == old(state).group_mapping,
{
    state.push_room_message(group_id, msg);
    let ghost before = state.rooms@;
    match state.rooms.remove(&group_id) {
        Some(room) => {
            let Room { server_group_id, name, members, last_seen_seq, last_read_seq } = room;
            let seen = if last_seen_seq < sequence_num {
                sequence_num
            } else {
                last_seen_seq
            };
            state.rooms.insert(
                group_id,
                Room { server_group_id, name, members, last_seen_seq: seen, last_read_seq },
            );
            assert(state.rooms@.dom() =~= before.dom());
        },
        None => {},
    }
}

/// The line after registering.
pub fn registered_line(user_id: u64) -> (m: DisplayMessage)
    ensures
        m.is_system,
        m.content@ == logged_in_line_spec(true, Seq::empty(), user_id),
{
    let mut out: Vec<char> = Vec::new();
    push_str(&mut out, "Registered as user ID ");
    let digits = crate::text::u64_to_chars(user_id);
    crate::text::push_all(&mut out, digits.as_slice());
    let text = string_from_chars(out.as_slice());
    DisplayMessage::system(text.as_str())
}

/// A group joined through a welcome: its ID, its name and its MLS group.
pub struct Joined {
    pub group_id: u128,
    pub group_name: String,
    pub mls_group_id: String,
}

/// A group mapping with its MLS group IDs as character sequences.
pub open spec fn mapping_view(m: Map<u128, String>) -> Map<u128, Seq<char>> {
    m.map_values(|s: String| s@)
}

/// The mapping after recording the MLS group of each joined group, in
/// order.
pub open spec fn mapping_after(m: Map<u128, Seq<char>>, groups: Seq<Joined>) -> Map<u128, Seq<char>>
    decreases groups.len(),
{
    if groups.len() == 0 {
        m
    } else {
        mapping_after(m, groups.drop_last()).insert(groups.last().group_id, groups.last().mls_group_id@)
    }
}

/// Records groups joined through welcomes: their MLS groups, a line each,
/// and the view switches to the last one (the rooms having been reloaded);
/// `No pending invitations.` when there were none.
pub fn joined(state: &mut AppState, groups: &[Joined]) -> (r: Vec<DisplayMessage>)
    ensures
        groups@.len() == 0 ==> r@.len() == 1 && r@[0].content@ == "No pending invitations."@
            && *final(state) == *old(state),
        groups@.len() > 0 ==> {
            &&& r@.len() == groups@.len()
            &&& forall|i: int|
                0 <= i < groups@.len() ==> (#[trigger] r@[i]).content@ == "Joined #"@
                    + groups@[i].group_name@ + " ("@ + uuid_text_spec(groups@[i].group_id) + ")"@
            &&& mapping_view(final(state).group_mapping@) == mapping_after(
                mapping_view(old(state).group_mapping@),
                groups@,
            )
            &&& final(state).active_room == Some(groups@.last().group_id)
            &&& final(state).scroll_offset == 0
            &&& final(state).rooms == old(state).rooms
        },
        forall|i: int| 0 <= i < r@.len() ==> (#[trigger] r@[i]).is_system,
        final(state).room_messages == old(state).room_messages,
{
    if groups.len() == 0 {
        return vec![DisplayMessage::system("No pending invitations.")];
    }
    let mut r: Vec<DisplayMessage> = Vec::new();
    let mut i: usize = 0;
    while i < groups.len()
        invariant
            i <= groups@.len(),
            r@.len() == i,
            forall|k: int|
                0 <= k < i ==> (#[trigger] r@[k]).is_system && r@[k].content@ == "Joined #"@
                    + groups@[k].group_name@ + " ("@ + uuid_text_spec(groups@[k].group_id) + ")"@,
            mapping_view(state.group_mapping@) == mapping_after(
                mapping_view(old(state).group_mapping@),
                groups@.take(i as int),
            ),
            state.rooms == old(state).rooms,
            state.active_room == old(state).active_room,
            state.scroll_offset == old(state).scroll_offset,
            state.room_messages == old(state).room_messages,
        decreases groups@.len() - i,
    {
        let g = &groups[i];
        proof {
            assert(groups@.take(i + 1).drop_last() =~= groups@.take(i as int));
        }
        let ghost before = state.group_mapping@;
        state.group_mapping.insert(g.group_id, owned(g.mls_group_id.as_str()));
        proof {
            assert(mapping_view(state.group_mapping@) =~= mapping_view(before).insert(
                g.group_id,
                g.mls_group_id@,
            ));
        }
        let mut out: Vec<char> = Vec::new();
        push_str(&mut out, "Joined #");
        push_str(&mut out, g.group_name.as_str());
        push_str(&mut out, " (");
        let id = uuid_to_string(g.group_id);
        push_str(&mut out, id.as_str());
        push_str(&mut out, ")");
        let text = string_from_chars(out.as_slice());
        r.push(DisplayMessage::system(text.as_str()));
        i = i + 1;
    }
    proof {
        assert(groups@.take(groups@.len() as int) =~= groups@);
    }
    state.active_room = Some(groups[groups.len() - 1].group_id);
    state.scroll_offset = 0;
    r
}

/// The lines a completed request of the interactive client shows.
pub enum ClientDone {
    KeyUploaded,
    Kicked,
    Rotated,
    NoNewMembers,
    Invited,
}

/// The line a completed request shows, about the names or name given.
pub open spec fn client_done_spec(d: ClientDone, names: Seq<Seq<char>>) -> Seq<char> {
    match d {
        ClientDone::KeyUploaded => "Key package generated and uploaded."@,
        ClientDone::Kicked => "Removed "@ + crate::tui::commands::joined_spec(names)
            + " from the room"@,
        ClientDone::Rotated => "Keys rotated. Forward secrecy updated."@,
        ClientDone::NoNewMembers => "No new members to invite."@,
        ClientDone::Invited => "Invited "@ + crate::tui::commands::joined_spec(names)
            + " to the room"@,
    }
}

/// The line a completed request shows.
pub fn client_done(d: ClientDone, names: &[String]) -> (m: DisplayMessage)
    ensures
        m.is_system,
        m.content@ == client_done_spec(d, crate::command::strings_view(names@)),
{
    let mut out: Vec<char> = Vec::new();
    match d {
        ClientDone::KeyUploaded => push_str(&mut out, "Key package generated and uploaded."),
        ClientDone::Kicked => {
            push_str(&mut out, "Removed ");
            let list = crate::tui::commands::join_names(names);
            crate::text::push_all(&mut out, list.as_slice());
            push_str(&mut out, " from the room");
        },
        ClientDone::Rotated => push_str(&mut out, "Keys rotated. Forward secrecy updated."),
        ClientDone::NoNewMembers => push_str(&mut out, "No new members to invite."),
        ClientDone::Invited => {
            push_str(&mut out, "Invited ");
            let list = crate::tui::commands::join_names(names);
            crate::text::push_all(&mut out, list.as_slice());
            push_str(&mut out, " to the room");
        },
    }
    let text = string_from_chars(out.as_slice());
    DisplayMessage::system(text.as_str())
}

} // verus!

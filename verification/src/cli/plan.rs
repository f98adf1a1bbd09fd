//! What a command of the terminal interface needs before anything is sent
//! to the server: whether it is carried out locally, answered at once,
//! refused for want of a login, a room, an MLS group or a member, or which
//! request it makes with which resolved IDs. Making the request is left to
//! the caller, which then applies its outcome with `cli::outcomes`.

use vstd::prelude::*;

use crate::cli::commands::{
    member_id_by_name, member_id_by_name_spec, no_active_room_msg, no_mapping_msg,
    not_logged_in_msg, not_member_msg, require_active_room, require_mls_group, require_user_id,
};
use crate::cli::state::AppState;
use crate::command::{Command, CommandView};
use crate::duration::{parse_duration, parse_duration_spec};
use crate::error::{error_message_spec, Error};
use crate::text::owned;

verus! {

/// What carrying out a command takes.
#[allow(inconsistent_fields)]
pub enum Plan {
    /// Carried out on local state alone (see `cli::commands`).
    Local,
    /// Not handled by this interface: nothing happens.
    Ignore,
    /// Answered at once with this message, without a request.
    Reply(String),
    /// Refused before any request, with this error text.
    Refused(String),
    /// A request that needs only the session.
    Session,
    /// A request on behalf of the logged-in user.
    User { user_id: u128 },
    /// A request about the active room.
    Room { group_id: u128 },
    /// Leaving the active room, with its MLS group when there is one.
    Leave { user_id: u128, group_id: u128, mls_group_id: Option<String> },
    /// An MLS change to the active room's group by the logged-in user.
    RoomMls { user_id: u128, group_id: u128, mls_group_id: String },
    /// Removing a member from the active room's group.
    Kick { user_id: u128, group_id: u128, mls_group_id: String, target: u128 },
    /// Changing the role of a member of the active room.
    Member { group_id: u128, target: u128 },
    /// Setting the active room's message expiry.
    SetExpiry { group_id: u128, seconds: i64 },
    /// Showing the MLS details of the active room's group.
    Info { group_id: u128, mls_group_id: String },
    /// Counting unread messages in every room.
    Unread,
}

/// A plan with its text as character sequences.
#[allow(inconsistent_fields)]
pub enum PlanView {
    Local,
    Ignore,
    Reply(Seq<char>),
    Refused(Seq<char>),
    Session,
    User { user_id: u128 },
    Room { group_id: u128 },
    Leave { user_id: u128, group_id: u128, mls_group_id: Option<Seq<char>> },
    RoomMls { user_id: u128, group_id: u128, mls_group_id: Seq<char> },
    Kick { user_id: u128, group_id: u128, mls_group_id: Seq<char>, target: u128 },
    Member { group_id: u128, target: u128 },
    SetExpiry { group_id: u128, seconds: i64 },
    Info { group_id: u128, mls_group_id: Seq<char> },
    Unread,
}

impl View for Plan {
    type V = PlanView;

    open spec fn view(&self) -> PlanView {
        match *self {
            Plan::Local => PlanView::Local,
            Plan::Ignore => PlanView::Ignore,
            Plan::Reply(m) => PlanView::Reply(m@),
            Plan::Refused(m) => PlanView::Refused(m@),
            Plan::Session => PlanView::Session,
            Plan::User { user_id } => PlanView::User { user_id },
            Plan::Room { group_id } => PlanView::Room { group_id },
            Plan::Leave { user_id, group_id, mls_group_id } => PlanView::Leave {
                user_id,
                group_id,
                mls_group_id: match mls_group_id {
                    Some(m) => Some(m@),
                    None => None,
                },
            },
            Plan::RoomMls { user_id, group_id, mls_group_id } => PlanView::RoomMls {
                user_id,
                group_id,
                mls_group_id: mls_group_id@,
            },
            Plan::Kick { user_id, group_id, mls_group_id, target } => PlanView::Kick {
                user_id,
                group_id,
                mls_group_id: mls_group_id@,
                target,
            },
            Plan::Member { group_id, target } => PlanView::Member { group_id, target },
            Plan::SetExpiry { group_id, seconds } => PlanView::SetExpiry { group_id, seconds },
            Plan::Info { group_id, mls_group_id } => PlanView::Info {
                group_id,
                mls_group_id: mls_group_id@,
            },
            Plan::Unread => PlanView::Unread,
        }
    }
}

/// The MLS group of the active room, if both are known.
pub open spec fn mapping_of(s: AppState, g: u128) -> Option<Seq<char>> {
    if s.group_mapping@.contains_key(g) {
        Some(s.group_mapping@[g]@)
    } else {
        None
    }
}

/// An MLS change to the active room by the logged-in user: refused without
/// a login, then without an active room, then without its MLS group.
pub open spec fn room_mls_spec(s: AppState) -> PlanView {
    match s.user_id {
        None => PlanView::Refused(not_logged_in_msg()),
        Some(u) => match s.active_room {
            None => PlanView::Refused(no_active_room_msg()),
            Some(g) => match mapping_of(s, g) {
                None => PlanView::Refused(no_mapping_msg()),
                Some(m) => PlanView::RoomMls { user_id: u, group_id: g, mls_group_id: m },
            },
        },
    }
}

/// A request about the active room, refused without one.
pub open spec fn room_spec(s: AppState) -> PlanView {
    match s.active_room {
        None => PlanView::Refused(no_active_room_msg()),
        Some(g) => PlanView::Room { group_id: g },
    }
}

/// A request on behalf of the logged-in user, refused without a login.
pub open spec fn user_spec(s: AppState) -> PlanView {
    match s.user_id {
        None => PlanView::Refused(not_logged_in_msg()),
        Some(u) => PlanView::User { user_id: u },
    }
}

/// What each command takes, checked in the order the commands check it;
/// `has_mls` says whether the MLS identity is loaded.
pub open spec fn plan_spec(s: AppState, has_mls: bool, c: CommandView) -> PlanView {
    match c {
        CommandView::Register { .. } | CommandView::Login { .. } | CommandView::Alias { .. }
        | CommandView::Whois { .. } | CommandView::Verify { .. } | CommandView::Unverify { .. }
        | CommandView::Trusted | CommandView::Passwd | CommandView::Rooms | CommandView::Invites
        | CommandView::Decline { .. } => PlanView::Session,
        CommandView::Logout | CommandView::Expunge { .. } => if s.logged_in {
            PlanView::Session
        } else {
            PlanView::Reply("Not logged in."@)
        },
        CommandView::Reset | CommandView::Create { .. } | CommandView::Join { target: None }
        | CommandView::Accept { .. } => user_spec(s),
        CommandView::Join { target: Some(_) } | CommandView::Close | CommandView::Members
        | CommandView::Help | CommandView::Quit => PlanView::Local,
        CommandView::Topic { .. } | CommandView::Expire { duration: None } | CommandView::Delete
        | CommandView::Admins | CommandView::Invited | CommandView::Uninvite { .. }
        | CommandView::Message { .. } => room_spec(s),
        CommandView::Part => match s.user_id {
            None => PlanView::Refused(not_logged_in_msg()),
            Some(u) => match s.active_room {
                None => PlanView::Refused(no_active_room_msg()),
                Some(g) => PlanView::Leave { user_id: u, group_id: g, mls_group_id: mapping_of(s, g) },
            },
        },
        CommandView::Unread => if !s.logged_in {
            PlanView::Reply("Not logged in."@)
        } else if s.rooms@.dom().len() == 0 {
            PlanView::Reply("No rooms."@)
        } else {
            PlanView::Unread
        },
        CommandView::Info => if !has_mls {
            PlanView::Refused(not_logged_in_msg())
        } else {
            match s.active_room {
                None => PlanView::Refused(no_active_room_msg()),
                Some(g) => match mapping_of(s, g) {
                    None => PlanView::Refused(no_mapping_msg()),
                    Some(m) => PlanView::Info { group_id: g, mls_group_id: m },
                },
            }
        },
        CommandView::Expire { duration: Some(d) } => match s.active_room {
            None => PlanView::Refused(no_active_room_msg()),
            Some(g) => match parse_duration_spec(d) {
                Ok(secs) => PlanView::SetExpiry { group_id: g, seconds: secs },
                Err(m) => PlanView::Refused(m),
            },
        },
        CommandView::Invite { .. } | CommandView::Rotate => room_mls_spec(s),
        CommandView::Kick { username } => match room_mls_spec(s) {
            PlanView::RoomMls { user_id, group_id, mls_group_id } => match member_id_by_name_spec(
                s.rooms@,
                group_id,
                username,
            ) {
                Some(t) => PlanView::Kick { user_id, group_id, mls_group_id, target: t },
                None => PlanView::Refused(not_member_msg(username)),
            },
            other => other,
        },
        CommandView::Promote { username } | CommandView::Demote { username } => match s.active_room {
            None => PlanView::Refused(no_active_room_msg()),
            Some(g) => match member_id_by_name_spec(s.rooms@, g, username) {
                Some(t) => PlanView::Member { group_id: g, target: t },
                None => PlanView::Refused(not_member_msg(username)),
            },
        },
        CommandView::Visibility { .. } | CommandView::Discover { .. } | CommandView::Ban { .. }
        | CommandView::Unban { .. } | CommandView::Banned => PlanView::Ignore,
    }
}

/// The text of an error that a check gave.
fn refused(e: Error) -> (p: Plan)
    ensures
        p@ == PlanView::Refused(error_message_spec(e)),
{
    Plan::Refused(e.message())
}

/// The MLS change to the active room, after its checks.
fn room_mls(state: &AppState) -> (p: Plan)
    ensures
        p@ == room_mls_spec(*state),
{
    let u = match require_user_id(state) {
        Ok(u) => u,
        Err(e) => return refused(e),
    };
    let g = match require_active_room(state) {
        Ok(g) => g,
        Err(e) => return refused(e),
    };
    match require_mls_group(state, g) {
        Ok(m) => Plan::RoomMls { user_id: u, group_id: g, mls_group_id: m },
        Err(e) => refused(e),
    }
}

/// Leaving the active room.
fn plan_part(state: &AppState) -> (p: Plan)
    ensures
        p@ == plan_spec(*state, false, CommandView::Part),
{
    let u = match require_user_id(state) {
        Ok(u) => u,
        Err(e) => return refused(e),
    };
    let g = match require_active_room(state) {
        Ok(g) => g,
        Err(e) => return refused(e),
    };
    let m = match state.group_mapping.get(&g) {
        Some(m) => Some(owned(m.as_str())),
        None => None,
    };
    Plan::Leave { user_id: u, group_id: g, mls_group_id: m }
}

/// Showing the MLS details of the active room.
fn plan_info(state: &AppState, has_mls: bool) -> (p: Plan)
    ensures
        p@ == plan_spec(*state, has_mls, CommandView::Info),
{
    if !has_mls {
        return Plan::Refused(owned("not logged in"));
    }
    let g = match require_active_room(state) {
        Ok(g) => g,
        Err(e) => return refused(e),
    };
    match require_mls_group(state, g) {
        Ok(m) => Plan::Info { group_id: g, mls_group_id: m },
        Err(e) => refused(e),
    }
}

/// Setting the active room's expiry.
fn plan_expire(state: &AppState, d: &String) -> (p: Plan)
    ensures
        p@ == plan_spec(*state, false, CommandView::Expire { duration: Some(d@) }),
{
    let g = match require_active_room(state) {
        Ok(g) => g,
        Err(e) => return refused(e),
    };
    match parse_duration(d.as_str()) {
        Ok(secs) => Plan::SetExpiry { group_id: g, seconds: secs },
        Err(e) => refused(e),
    }
}

/// Removing a member.
fn plan_kick(state: &AppState, username: &String) -> (p: Plan)
    ensures
        p@ == plan_spec(*state, false, CommandView::Kick { username: username@ }),
{
    match room_mls(state) {
        Plan::RoomMls { user_id, group_id, mls_group_id } => match member_id_by_name(
            state,
            group_id,
            username.as_str(),
        ) {
            Ok(t) => Plan::Kick { user_id, group_id, mls_group_id, target: t },
            Err(e) => refused(e),
        },
        other => other,
    }
}

/// Changing a member's role.
fn plan_member(state: &AppState, username: &String) -> (p: Plan)
    ensures
        p@ == plan_spec(*state, false, CommandView::Promote { username: username@ }),
        p@ == plan_spec(*state, false, CommandView::Demote { username: username@ }),
{
    let g = match require_active_room(state) {
        Ok(g) => g,
        Err(e) => return refused(e),
    };
    match member_id_by_name(state, g, username.as_str()) {
        Ok(t) => Plan::Member { group_id: g, target: t },
        Err(e) => refused(e),
    }
}

/// What a command takes before anything is sent.
#[verifier::rlimit(30)]
pub fn plan(state: &AppState, has_mls: bool, cmd: &Command) -> (p: Plan)
    ensures
        p@ == plan_spec(*state, has_mls, cmd@),
{
    match cmd {
        Command::Register { .. } | Command::Login { .. } | Command::Alias { .. }
        | Command::Whois { .. } | Command::Verify { .. } | Command::Unverify { .. }
        | Command::Trusted | Command::Passwd | Command::Rooms | Command::Invites
        | Command::Decline { .. } => Plan::Session,
        Command::Logout | Command::Expunge { .. } => if state.logged_in {
            Plan::Session
        } else {
            Plan::Reply(owned("Not logged in."))
        },
        Command::Reset | Command::Create { .. } | Command::Join { target: None }
        | Command::Accept { .. } => match require_user_id(state) {
            Ok(u) => Plan::User { user_id: u },
            Err(e) => refused(e),
        },
        Command::Join { target: Some(_) } | Command::Close | Command::Members | Command::Help
        | Command::Quit => Plan::Local,
        Command::Topic { .. } | Command::Expire { duration: None } | Command::Delete
        | Command::Admins | Command::Invited | Command::Uninvite { .. } | Command::Message {
            ..
        } => match require_active_room(state) {
            Ok(g) => Plan::Room { group_id: g },
            Err(e) => refused(e),
        },
        Command::Part => plan_part(state),
        Command::Unread => if !state.logged_in {
            Plan::Reply(owned("Not logged in."))
        } else if state.rooms.len() == 0 {
            Plan::Reply(owned("No rooms."))
        } else {
            Plan::Unread
        },
        Command::Info => plan_info(state, has_mls),
        Command::Expire { duration: Some(d) } => plan_expire(state, d),
        Command::Invite { .. } | Command::Rotate => room_mls(state),
        Command::Kick { username } => plan_kick(state, username),
        Command::Promote { username } | Command::Demote { username } => plan_member(state, username),
        Command::Visibility { .. } | Command::Discover { .. } | Command::Ban { .. }
        | Command::Unban { .. } | Command::Banned => Plan::Ignore,
    }
}

/// A plain-text message is always sent to the active room: with an active
/// room `g` it is a request about `g`, without one it is refused for want of
/// a room; nothing else about the state matters.
pub proof fn lemma_message_goes_to_active_room(s: AppState, has_mls: bool, text: Seq<char>)
    ensures
        match s.active_room {
            Some(g) => plan_spec(s, has_mls, CommandView::Message { text }) == PlanView::Room {
                group_id: g,
            },
            None => plan_spec(s, has_mls, CommandView::Message { text }) == PlanView::Refused(
                "no active room -- use /join first"@,
            ),
        },
{
}

} // verus!

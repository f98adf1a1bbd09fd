//! How the command-line client uses the stored session: notification
//! preferences, and what a command needs from the session before it runs.

use std::collections::HashMap;

use vstd::prelude::*;

use crate::config::SessionState;
use crate::error::{error_message_spec, Error};
use crate::text::{i64_to_chars, int_text, owned, push_all, push_str, string_from_chars};

verus! {

broadcast use vstd::std_specs::hash::group_hash_axioms;

/// How new messages in rooms other than the one in view are announced.
#[derive(Debug, Clone, Copy, PartialEq, Eq, Structural)]
pub enum NotificationMethod {
    Native,
    Bell,
    Both,
    /// Neither: new messages are not announced.
    Silent,
}

impl NotificationMethod {
    /// Whether desktop notifications are sent.
    pub open spec fn uses_native_spec(self) -> bool {
        self == NotificationMethod::Native || self == NotificationMethod::Both
    }

    /// Whether the terminal bell is rung.
    pub open spec fn uses_bell_spec(self) -> bool {
        self == NotificationMethod::Bell || self == NotificationMethod::Both
    }

    /// Whether a desktop notification is sent.
    pub fn uses_native(&self) -> (r: bool)
        ensures
            r == self.uses_native_spec(),
    {
        match self {
            NotificationMethod::Native | NotificationMethod::Both => true,
            _ => false,
        }
    }

    /// Whether the terminal bell is rung.
    pub fn uses_bell(&self) -> (r: bool)
        ensures
            r == self.uses_bell_spec(),
    {
        match self {
            NotificationMethod::Bell | NotificationMethod::Both => true,
            _ => false,
        }
    }
}

impl Default for NotificationMethod {
    /// Desktop notifications unless configured otherwise.
    fn default() -> (r: Self)
        ensures
            r == NotificationMethod::Native,
    {
        NotificationMethod::Native
    }
}

/// The message given when a command needs a login that is not there.
pub open spec fn not_logged_in_msg() -> Seq<char> {
    "not logged in -- run login first"@
}

/// The user ID of the session, required by commands that act as the user.
pub fn require_user_id(session: &SessionState) -> (r: Result<i64, Error>)
    ensures
        match session.user_id {
            Some(id) => r == Ok::<i64, Error>(id),
            None => r matches Err(e) && e is Other && error_message_spec(e) == not_logged_in_msg(),
        },
{
    match session.user_id {
        Some(id) => Ok(id),
        None => Err(Error::Other(owned("not logged in -- run login first"))),
    }
}

/// The server address of the session, required to reach the server.
pub fn require_server_url(session: &SessionState) -> (r: Result<String, Error>)
    ensures
        match session.server_url {
            Some(u) => r matches Ok(v) && v@ == u@,
            None => r matches Err(e) && e is Other && error_message_spec(e) == not_logged_in_msg(),
        },
{
    match &session.server_url {
        Some(u) => Ok(owned(u.as_str())),
        None => Err(Error::Other(owned("not logged in -- run login first"))),
    }
}

/// The message given for a group without a known MLS group.
pub open spec fn unknown_group_msg(group_id: i64) -> Seq<char> {
    "unknown group '"@ + int_text(group_id as int) + "' -- run join first"@
}

/// The MLS group ID that the group mapping holds for a server group.
pub fn resolve_mls_group_id(mapping: &HashMap<i64, String>, group_id: i64) -> (r: Result<
    String,
    Error,
>)
    ensures
        mapping@.contains_key(group_id) ==> (r matches Ok(v) && v@ == mapping@[group_id]@),
        !mapping@.contains_key(group_id) ==> (r matches Err(e) && e is Other
            && error_message_spec(e) == unknown_group_msg(group_id)),
{
    match mapping.get(&group_id) {
        Some(v) => Ok(owned(v.as_str())),
        None => {
            let mut out: Vec<char> = Vec::new();
            push_str(&mut out, "unknown group '");
            let digits = i64_to_chars(group_id);
            push_all(&mut out, digits.as_slice());
            push_str(&mut out, "' -- run join first");
            Err(Error::Other(string_from_chars(out.as_slice())))
        },
    }
}

} // verus!

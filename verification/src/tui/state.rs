//! State of the interactive client: rooms, their messages and the active
//! room. Groups are identified by the 128-bit value of their server UUID.

use std::collections::HashMap;

use vstd::prelude::*;

use crate::state::{current_timestamp, keys_of};
use crate::text::{chars_of, owned, spec_to_lowercase, starts_with, starts_with_spec, str_eq, to_lowercase};

verus! {

broadcast use vstd::std_specs::hash::group_hash_axioms;

/// Connection status of the server event stream.
#[derive(Debug, Clone, Copy, PartialEq, Eq, Structural)]
pub enum ConnectionStatus {
    Disconnected,
    Connecting,
    Connected,
}

/// A room the user has joined.
#[derive(Debug, Clone)]
pub struct Room {
    pub server_group_id: u128,
    pub name: String,
    pub members: Vec<String>,
    /// Highest sequence number processed by MLS (fetched and decrypted).
    pub last_seen_seq: u64,
    /// Highest sequence number the user has viewed.
    pub last_read_seq: u64,
}

/// A single message for display.
#[derive(Debug, Clone)]
pub struct DisplayMessage {
    pub sender: String,
    pub content: String,
    pub timestamp: i64,
    /// System messages (joins, parts, errors) are shown differently.
    pub is_system: bool,
}

impl DisplayMessage {
    /// A message from a user.
    pub fn user(sender: &str, content: &str, timestamp: i64) -> (m: Self)
        ensures
            m.sender@ == sender@,
            m.content@ == content@,
            m.timestamp == timestamp,
            !m.is_system,
    {
        DisplayMessage { sender: owned(sender), content: owned(content), timestamp, is_system: false }
    }

    /// A system message stamped with the current time.
    pub fn system(content: &str) -> (m: Self)
        ensures
            m.sender@ == Seq::<char>::empty(),
            m.content@ == content@,
            m.is_system,
    {
        DisplayMessage {
            sender: String::new(),
            content: owned(content),
            timestamp: current_timestamp(),
            is_system: true,
        }
    }
}

/// The lists of messages of each room, as sequences.
pub open spec fn message_lists(m: Map<u128, Vec<DisplayMessage>>) -> Map<u128, Seq<DisplayMessage>> {
    Map::new(|g: u128| m.contains_key(g), |g: u128| m[g]@)
}

/// Central application state.
pub struct AppState {
    pub username: Option<String>,
    pub user_id: Option<u64>,
    pub logged_in: bool,
    pub rooms: HashMap<u128, Room>,
    /// Server group ID of the active room.
    pub active_room: Option<u128>,
    /// Messages of each room, by server group ID.
    pub room_messages: HashMap<u128, Vec<DisplayMessage>>,
    /// Server group ID to MLS group ID (hex).
    pub group_mapping: HashMap<u128, String>,
    pub connection_status: ConnectionStatus,
    pub scroll_offset: usize,
    pub terminal_rows: u16,
    pub terminal_cols: u16,
    /// System messages not tied to any room.
    pub system_messages: Vec<DisplayMessage>,
}

/// The messages shown in the current view: those of the active room (none
/// when it has no list yet), or the system messages when no room is active.
pub open spec fn active_messages_spec(s: AppState) -> Seq<DisplayMessage> {
    match s.active_room {
        Some(g) => if s.room_messages@.contains_key(g) {
            s.room_messages@[g]@
        } else {
            Seq::empty()
        },
        None => s.system_messages@,
    }
}

/// A room whose lowercased name equals the lowercased name given.
pub open spec fn named_exactly(room: Room, lower: Seq<char>) -> bool {
    spec_to_lowercase(room.name@) == lower
}

/// A room whose lowercased name starts with the lowercased name given.
pub open spec fn named_by_prefix(room: Room, lower: Seq<char>) -> bool {
    starts_with_spec(spec_to_lowercase(room.name@), lower)
}

impl AppState {
    /// The state at start-up: logged out, no rooms, disconnected, an 80 by
    /// 24 terminal.
    pub fn new() -> (s: Self)
        ensures
            s.username is None,
            s.user_id is None,
            !s.logged_in,
            s.rooms@ == Map::<u128, Room>::empty(),
            s.active_room is None,
            s.room_messages@ == Map::<u128, Vec<DisplayMessage>>::empty(),
            s.group_mapping@ == Map::<u128, String>::empty(),
            s.connection_status == ConnectionStatus::Disconnected,
            s.scroll_offset == 0,
            s.terminal_rows == 24,
            s.terminal_cols == 80,
            s.system_messages@ == Seq::<DisplayMessage>::empty(),
    {
        AppState {
            username: None,
            user_id: None,
            logged_in: false,
            rooms: HashMap::new(),
            active_room: None,
            room_messages: HashMap::new(),
            group_mapping: HashMap::new(),
            connection_status: ConnectionStatus::Disconnected,
            scroll_offset: 0,
            terminal_rows: 24,
            terminal_cols: 80,
            system_messages: Vec::new(),
        }
    }

    /// The messages of the current view.
    pub fn active_messages(&self) -> (r: &[DisplayMessage])
        ensures
            r@ == active_messages_spec(*self),
    {
        match self.active_room {
            Some(g) => match self.room_messages.get(&g) {
                Some(v) => v.as_slice(),
                None => &[],
            },
            None => self.system_messages.as_slice(),
        }
    }

    /// The active room, if it is known.
    pub fn active_room_info(&self) -> (r: Option<&Room>)
        ensures
            r == match self.active_room {
                Some(g) => if self.rooms@.contains_key(g) {
                    Some(&self.rooms@[g])
                } else {
                    None
                },
                None => None,
            },
    {
        match self.active_room {
            Some(g) => self.rooms.get(&g),
            None => None,
        }
    }

    /// Finds a room by name, ignoring case: one named exactly so if any,
    /// otherwise one whose name starts with the given name. Among several
    /// rooms that match in the same way, any may be found.
    pub fn find_room_by_name(&self, name: &str) -> (r: Option<&Room>)
        ensures
            ({
                let lower = spec_to_lowercase(name@);
                let exact = exists|g: u128|
                    #[trigger] self.rooms@.contains_key(g) && named_exactly(self.rooms@[g], lower);
                let prefix = exists|g: u128|
                    #[trigger] self.rooms@.contains_key(g) && named_by_prefix(self.rooms@[g], lower);
                if exact {
                    exists|g: u128|
                        #[trigger] self.rooms@.contains_key(g) && r == Some(&self.rooms@[g])
                            && named_exactly(self.rooms@[g], lower)
                } else if prefix {
                    exists|g: u128|
                        #[trigger] self.rooms@.contains_key(g) && r == Some(&self.rooms@[g])
                            && named_by_prefix(self.rooms@[g], lower)
                } else {
                    r is None
                }
            }),
    {
        let lower = to_lowercase(name);
        let lower_chars = chars_of(lower.as_str());
        let keys = keys_of(&self.rooms);
        let ghost lw = lower@;
        let mut i: usize = 0;
        while i < keys.len()
            invariant
                i <= keys@.len(),
                keys@.to_set() == self.rooms@.dom(),
                lw == spec_to_lowercase(name@),
                lower@ == lw,
                forall|j: int| 0 <= j < i ==> !named_exactly(self.rooms@[#[trigger] keys@[j]], lw),
            decreases keys@.len() - i,
        {
            let g = keys[i];
            assert(keys@.contains(g));
            let room = self.rooms.get(&g).unwrap();
            let nl = to_lowercase(room.name.as_str());
            if str_eq(nl.as_str(), lower.as_str()) {
                return Some(room);
            }
            i = i + 1;
        }
        assert forall|g: u128| #[trigger] self.rooms@.contains_key(g) implies !named_exactly(
            self.rooms@[g],
            lw,
        ) by {
            assert(keys@.to_set().contains(g));
            let j = choose|j: int| 0 <= j < keys@.len() && #[trigger] keys@[j] == g;
        }
        let mut i: usize = 0;
        while i < keys.len()
            invariant
                i <= keys@.len(),
                keys@.to_set() == self.rooms@.dom(),
                lw == spec_to_lowercase(name@),
                lower_chars@ == lw,
                forall|g: u128|
                    #[trigger] self.rooms@.contains_key(g) ==> !named_exactly(self.rooms@[g], lw),
                forall|j: int| 0 <= j < i ==> !named_by_prefix(self.rooms@[#[trigger] keys@[j]], lw),
            decreases keys@.len() - i,
        {
            let g = keys[i];
            assert(keys@.contains(g));
            let room = self.rooms.get(&g).unwrap();
            let nl = to_lowercase(room.name.as_str());
            let nc = chars_of(nl.as_str());
            if starts_with(nc.as_slice(), lower_chars.as_slice()) {
                assert(named_by_prefix(self.rooms@[g], lw));
                return Some(room);
            }
            i = i + 1;
        }
        assert forall|g: u128| #[trigger] self.rooms@.contains_key(g) implies !named_by_prefix(
            self.rooms@[g],
            lw,
        ) by {
            assert(keys@.to_set().contains(g));
            let j = choose|j: int| 0 <= j < keys@.len() && #[trigger] keys@[j] == g;
        }
        None
    }

    /// Appends a message to a room's list, creating the list when needed.
    pub fn push_room_message(&mut self, group_id: u128, msg: DisplayMessage)
        ensures
            message_lists(final(self).room_messages@) == message_lists(old(self).room_messages@).insert(
                group_id,
                if old(self).room_messages@.contains_key(group_id) {
                    old(self).room_messages@[group_id]@.push(msg)
                } else {
                    seq![msg]
                },
            ),
            final(self).system_messages == old(self).system_messages,
            final(self).rooms == old(self).rooms,
            final(self).active_room == old(self).active_room,
            final(self).group_mapping == old(self).group_mapping,
    {
        let ghost before = self.room_messages@;
        let mut list = match self.room_messages.remove(&group_id) {
            Some(v) => v,
            None => Vec::new(),
        };
        list.push(msg);
        self.room_messages.insert(group_id, list);
        proof {
            assert(message_lists(self.room_messages@) =~= message_lists(before).insert(
                group_id,
                if before.contains_key(group_id) {
                    before[group_id]@.push(msg)
                } else {
                    seq![msg]
                },
            ));
        }
    }

    /// Appends a system message.
    pub fn push_system_message(&mut self, msg: DisplayMessage)
        ensures
            final(self).system_messages@ == old(self).system_messages@.push(msg),
            final(self).room_messages == old(self).room_messages,
            final(self).rooms == old(self).rooms,
            final(self).active_room == old(self).active_room,
    {
        self.system_messages.push(msg);
    }
}

} // verus!

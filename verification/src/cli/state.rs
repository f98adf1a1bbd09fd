//! State of the terminal interface: the rooms and their messages, the
//! active room, and the password prompt.

use std::collections::HashMap;

use vstd::prelude::*;

use crate::ids::{parse_uuid, uuid_parse_spec};
use crate::state::{
    keys_of, lists_view, room_display_name_spec, ConnectionStatus, DisplayMessage, Room,
    VerificationStatus,
};
use crate::text::{chars_of, spec_to_lowercase, starts_with, starts_with_spec, str_eq, to_lowercase};

verus! {

broadcast use vstd::std_specs::hash::group_hash_axioms;

/// What the password prompt is being used for, and the stored fields from
/// the command that opened it.
pub enum PasswordPromptPurpose {
    ChangePassword,
    Register { server: String, username: String, token: Option<String> },
    Login { server: String, username: String },
    DeleteAccount,
}

/// The step of a password prompt.
pub enum PasswordPromptStage {
    Current,
    New,
    Confirm,
}

/// The prompt shown at a stage of a password prompt: logging in and deleting
/// the account ask for the password itself; otherwise the current, new and
/// confirmed password are asked for.
pub open spec fn prompt_label_spec(stage: PasswordPromptStage, purpose: PasswordPromptPurpose) -> Seq<
    char,
> {
    match stage {
        PasswordPromptStage::Current => "Current password: "@,
        PasswordPromptStage::New => match purpose {
            PasswordPromptPurpose::Login { .. } => "Password: "@,
            PasswordPromptPurpose::DeleteAccount => "Password: "@,
            _ => "New password: "@,
        },
        PasswordPromptStage::Confirm => "Confirm password: "@,
    }
}

impl PasswordPromptStage {
    /// The prompt label for this stage and purpose.
    pub fn label(&self, purpose: &PasswordPromptPurpose) -> (r: &'static str)
        ensures
            r@ == prompt_label_spec(*self, *purpose),
    {
        match self {
            PasswordPromptStage::Current => "Current password: ",
            PasswordPromptStage::New => match purpose {
                PasswordPromptPurpose::Login { .. } => "Password: ",
                PasswordPromptPurpose::DeleteAccount => "Password: ",
                _ => "New password: ",
            },
            PasswordPromptStage::Confirm => "Confirm password: ",
        }
    }
}

/// Whether input goes to the command line or to a password prompt. The
/// passwords typed so far are kept by the caller, in memory that is wiped on
/// drop, not here.
pub enum InputMode {
    Normal,
    PasswordPrompt { purpose: PasswordPromptPurpose, stage: PasswordPromptStage },
}

/// State of the terminal interface.
pub struct AppState {
    pub username: Option<String>,
    pub user_id: Option<u128>,
    pub logged_in: bool,
    pub rooms: HashMap<u128, Room>,
    pub active_room: Option<u128>,
    pub room_messages: HashMap<u128, Vec<DisplayMessage>>,
    /// Server group ID to MLS group ID (hex).
    pub group_mapping: HashMap<u128, String>,
    pub connection_status: ConnectionStatus,
    pub scroll_offset: usize,
    pub terminal_rows: u16,
    pub terminal_cols: u16,
    /// Verification status per user (trust on first use).
    pub verification_status: HashMap<u128, VerificationStatus>,
    /// System messages not tied to any room.
    pub system_messages: Vec<DisplayMessage>,
    /// Whether indicators are shown for verified users and rooms.
    pub show_verified_indicator: bool,
    pub input_mode: InputMode,
}

/// The messages shown in the current view: those of the active room (none
/// when it has no list yet), or the system messages when no room is active.
pub open spec fn active_messages_spec(s: AppState) -> Seq<DisplayMessage> {
    match s.active_room {
        Some(g) => if s.room_messages@.contains_key(g) {
            s.room_messages@[g]@
        } else {
            Seq::empty()
        },
        None => s.system_messages@,
    }
}

/// The room a name picks out: its display name, lowercased, equals the
/// lowercased name.
pub open spec fn names_room_exactly(room: Room, lower: Seq<char>) -> bool {
    spec_to_lowercase(room_display_name_spec(room)) == lower
}

/// The room a name abbreviates: its lowercased display name starts with the
/// lowercased name.
pub open spec fn names_room_by_prefix(room: Room, lower: Seq<char>) -> bool {
    starts_with_spec(spec_to_lowercase(room_display_name_spec(room)), lower)
}

/// The room a lookup by name may find: one whose display name equals the
/// lowercased name when there is one, otherwise one whose display name
/// starts with it, otherwise the room whose ID the name spells.
pub open spec fn resolves_to(rooms: Map<u128, Room>, name: Seq<char>, k: u128) -> bool {
    let lower = spec_to_lowercase(name);
    &&& rooms.contains_key(k)
    &&& if exists|g: u128| #[trigger] rooms.contains_key(g) && names_room_exactly(rooms[g], lower) {
        names_room_exactly(rooms[k], lower)
    } else if exists|g: u128|
        #[trigger] rooms.contains_key(g) && names_room_by_prefix(rooms[g], lower) {
        names_room_by_prefix(rooms[k], lower)
    } else {
        uuid_parse_spec(name) == Some(k)
    }
}

/// Some room answers to the name.
pub open spec fn resolvable(rooms: Map<u128, Room>, name: Seq<char>) -> bool {
    exists|k: u128| #[trigger] resolves_to(rooms, name, k)
}

impl AppState {
    /// The state at start-up: logged out, no rooms, disconnected, an 80 by
    /// 24 terminal, normal input.
    pub fn new() -> (s: Self)
        ensures
            s.username is None,
            s.user_id is None,
            !s.logged_in,
            s.rooms@ == Map::<u128, Room>::empty(),
            s.active_room is None,
            s.room_messages@ == Map::<u128, Vec<DisplayMessage>>::empty(),
            s.group_mapping@ == Map::<u128, String>::empty(),
            s.connection_status == ConnectionStatus::Disconnected,
            s.verification_status@ == Map::<u128, VerificationStatus>::empty(),
            s.scroll_offset == 0,
            s.terminal_rows == 24,
            s.terminal_cols == 80,
            s.system_messages@ == Seq::<DisplayMessage>::empty(),
            !s.show_verified_indicator,
            s.input_mode is Normal,
    {
        AppState {
            username: None,
            user_id: None,
            logged_in: false,
            rooms: HashMap::new(),
            active_room: None,
            room_messages: HashMap::new(),
            group_mapping: HashMap::new(),
            connection_status: ConnectionStatus::Disconnected,
            verification_status: HashMap::new(),
            scroll_offset: 0,
            terminal_rows: 24,
            terminal_cols: 80,
            system_messages: Vec::new(),
            show_verified_indicator: false,
            input_mode: InputMode::Normal,
        }
    }

    /// The messages of the current view.
    pub fn active_messages(&self) -> (r: &[DisplayMessage])
        ensures
            r@ == active_messages_spec(*self),
    {
        match self.active_room {
            Some(g) => match self.room_messages.get(&g) {
                Some(v) => v.as_slice(),
                None => &[],
            },
            None => self.system_messages.as_slice(),
        }
    }

    /// The active room, if it is known.
    pub fn active_room_info(&self) -> (r: Option<&Room>)
        ensures
            r == match self.active_room {
                Some(g) => if self.rooms@.contains_key(g) {
                    Some(&self.rooms@[g])
                } else {
                    None
                },
                None => None,
            },
    {
        match self.active_room {
            Some(g) => self.rooms.get(&g),
            None => None,
        }
    }

    /// Finds a room by display name (alias or group name), ignoring case;
    /// then by a display name that starts with the given name; then by its
    /// ID. Among several rooms that match in the same way, any may be found.
    pub fn resolve_room(&self, name: &str) -> (r: Option<&Room>)
        ensures
            match r {
                Some(room) => exists|k: u128|
                    #[trigger] resolves_to(self.rooms@, name@, k) && room == &self.rooms@[k],
                None => !resolvable(self.rooms@, name@),
            },
            ({
                let lower = spec_to_lowercase(name@);
                let exact = exists|g: u128|
                    #[trigger] self.rooms@.contains_key(g) && names_room_exactly(
                        self.rooms@[g],
                        lower,
                    );
                let prefix = exists|g: u128|
                    #[trigger] self.rooms@.contains_key(g) && names_room_by_prefix(
                        self.rooms@[g],
                        lower,
                    );
                if exact {
                    exists|g: u128|
                        #[trigger] self.rooms@.contains_key(g) && r == Some(&self.rooms@[g])
                            && names_room_exactly(self.rooms@[g], lower)
                } else if prefix {
                    exists|g: u128|
                        #[trigger] self.rooms@.contains_key(g) && r == Some(&self.rooms@[g])
                            && names_room_by_prefix(self.rooms@[g], lower)
                } else {
                    r == match uuid_parse_spec(name@) {
                        Some(id) => if self.rooms@.contains_key(id) {
                            Some(&self.rooms@[id])
                        } else {
                            None
                        },
                        None => None,
                    }
                }
            }),
    {
        let lower = to_lowercase(name);
        let lower_chars = chars_of(lower.as_str());
        let keys = keys_of(&self.rooms);
        let ghost lw = lower@;
        // Exact match on display name.
        let mut i: usize = 0;
        while i < keys.len()
            invariant
                i <= keys@.len(),
                keys@.to_set() == self.rooms@.dom(),
                lw == spec_to_lowercase(name@),
                lower@ == lw,
                forall|j: int|
                    0 <= j < i ==> !names_room_exactly(self.rooms@[#[trigger] keys@[j]], lw),
            decreases keys@.len() - i,
        {
            let g = keys[i];
            assert(keys@.contains(g));
            let room = self.rooms.get(&g).unwrap();
            let dn = room.display_name();
            let dl = to_lowercase(dn.as_str());
            if str_eq(dl.as_str(), lower.as_str()) {
                assert(names_room_exactly(self.rooms@[g], lw));
                assert(resolves_to(self.rooms@, name@, g));
                return Some(room);
            }
            i = i + 1;
        }
        assert forall|g: u128| #[trigger] self.rooms@.contains_key(g) implies !names_room_exactly(
            self.rooms@[g],
            lw,
        ) by {
            assert(keys@.to_set().contains(g));
            let j = choose|j: int| 0 <= j < keys@.len() && #[trigger] keys@[j] == g;
        }
        // Prefix match on display name.
        let mut i: usize = 0;
        while i < keys.len()
            invariant
                i <= keys@.len(),
                keys@.to_set() == self.rooms@.dom(),
                lw == spec_to_lowercase(name@),
                lower_chars@ == lw,
                forall|g: u128|
                    #[trigger] self.rooms@.contains_key(g) ==> !names_room_exactly(
                        self.rooms@[g],
                        lw,
                    ),
                forall|j: int|
                    0 <= j < i ==> !names_room_by_prefix(self.rooms@[#[trigger] keys@[j]], lw),
            decreases keys@.len() - i,
        {
            let g = keys[i];
            assert(keys@.contains(g));
            let room = self.rooms.get(&g).unwrap();
            let dn = room.display_name();
            let dl = to_lowercase(dn.as_str());
            let dc = chars_of(dl.as_str());
            if starts_with(dc.as_slice(), lower_chars.as_slice()) {
                assert(names_room_by_prefix(self.rooms@[g], lw));
                assert(resolves_to(self.rooms@, name@, g));
                return Some(room);
            }
            i = i + 1;
        }
        assert forall|g: u128| #[trigger] self.rooms@.contains_key(g) implies !names_room_by_prefix(
            self.rooms@[g],
            lw,
        ) by {
            assert(keys@.to_set().contains(g));
            let j = choose|j: int| 0 <= j < keys@.len() && #[trigger] keys@[j] == g;
        }
        // Direct ID lookup.
        match parse_uuid(name) {
            Some(id) => {
                let found = self.rooms.get(&id);
                proof {
                    if self.rooms@.contains_key(id) {
                        assert(resolves_to(self.rooms@, name@, id));
                    } else {
                        assert forall|k: u128| !#[trigger] resolves_to(self.rooms@, name@, k) by {}
                    }
                }
                found
            },
            None => {
                assert forall|k: u128| !#[trigger] resolves_to(self.rooms@, name@, k) by {}
                None
            },
        }
    }

    /// Appends a message to a room's list, creating the list when needed.
    pub fn push_room_message(&mut self, group_id: u128, msg: DisplayMessage)
        ensures
            lists_view(final(self).room_messages@) == lists_view(old(self).room_messages@).insert(
                group_id,
                if old(self).room_messages@.contains_key(group_id) {
                    old(self).room_messages@[group_id]@.push(msg)
                } else {
                    seq![msg]
                },
            ),
            final(self).system_messages == old(self).system_messages,
            final(self).rooms == old(self).rooms,
            final(self).active_room == old(self).active_room,
            final(self).scroll_offset == old(self).scroll_offset,
            final(self).group_mapping == old(self).group_mapping,
            final(self).user_id == old(self).user_id,
    {
        let ghost before = self.room_messages@;
        let mut list = match self.room_messages.remove(&group_id) {
            Some(v) => v,
            None => Vec::new(),
        };
        list.push(msg);
        self.room_messages.insert(group_id, list);
        proof {
            assert(lists_view(self.room_messages@) =~= lists_view(before).insert(
                group_id,
                if before.contains_key(group_id) {
                    before[group_id]@.push(msg)
                } else {
                    seq![msg]
                },
            ));
        }
    }

    /// Appends a system message.
    pub fn push_system_message(&mut self, msg: DisplayMessage)
        ensures
            final(self).system_messages@ == old(self).system_messages@.push(msg),
            final(self).room_messages == old(self).room_messages,
            final(self).rooms == old(self).rooms,
            final(self).active_room == old(self).active_room,
            final(self).scroll_offset == old(self).scroll_offset,
            final(self).group_mapping == old(self).group_mapping,
            final(self).user_id == old(self).user_id,
    {
        self.system_messages.push(msg);
    }
}

/// A message pushed to the active room, or to the system list when no room
/// is active, is the last message of the current view.
pub proof fn lemma_pushed_message_is_shown(s: AppState, t: AppState, msg: DisplayMessage)
    requires
        t.active_room == s.active_room,
        match s.active_room {
            Some(g) => lists_view(t.room_messages@) == lists_view(s.room_messages@).insert(
                g,
                if s.room_messages@.contains_key(g) {
                    s.room_messages@[g]@.push(msg)
                } else {
                    seq![msg]
                },
            ),
            None => t.system_messages@ == s.system_messages@.push(msg),
        },
    ensures
        active_messages_spec(t) == active_messages_spec(s).push(msg),
{
    if let Some(g) = s.active_room {
        assert(lists_view(t.room_messages@).contains_key(g));
        assert(lists_view(t.room_messages@)[g] == t.room_messages@[g]@);
        if !s.room_messages@.contains_key(g) {
            assert(seq![msg] =~= Seq::<DisplayMessage>::empty().push(msg));
        }
    }
}

} // verus!

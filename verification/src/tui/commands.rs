//! Commands of the interactive client: what a line of input asks for, and the
//! help text.

use vstd::prelude::*;

use crate::command::{member_list, member_list_spec, opt_view, strings_view};
use crate::error::{Error, Result};
use crate::ids::{uuid_text_spec, uuid_to_string};
use crate::operations::GroupDetails;
use crate::tui::state::{AppState, DisplayMessage, Room, named_by_prefix, named_exactly};
use crate::text::{decimal_spec, spec_to_lowercase, u64_to_chars};
use crate::text::{
    chars_eq_str, chars_of, lemma_splitn_len, owned, push_all, push_str, splitn, splitn_spec,
    string_from_chars, views,
};

verus! {

/// Parsed command from user input.
pub enum Command {
    Register { username: String, password: String },
    Login { username: String, password: String },
    Keygen,
    Create { name: String, members: Vec<String> },
    /// No argument: accept pending invitations. With one: switch to a room.
    Join { target: Option<String> },
    Invite { members: Vec<String> },
    Kick { username: String },
    Leave,
    Part,
    Rotate,
    Reset,
    Info,
    Rooms,
    Who,
    Msg { room: String, text: String },
    Unread,
    Logout,
    Me,
    Help,
    Quit,
    Message { text: String },
}

/// A command with its text arguments as character sequences.
pub enum CommandView {
    Register { username: Seq<char>, password: Seq<char> },
    Login { username: Seq<char>, password: Seq<char> },
    Keygen,
    Create { name: Seq<char>, members: Seq<Seq<char>> },
    Join { target: Option<Seq<char>> },
    Invite { members: Seq<Seq<char>> },
    Kick { username: Seq<char> },
    Leave,
    Part,
    Rotate,
    Reset,
    Info,
    Rooms,
    Who,
    Msg { room: Seq<char>, text: Seq<char> },
    Unread,
    Logout,
    Me,
    Help,
    Quit,
    Message { text: Seq<char> },
}

impl View for Command {
    type V = CommandView;

    open spec fn view(&self) -> CommandView {
        match self {
            Command::Register { username, password } => CommandView::Register {
                username: username@,
                password: password@,
            },
            Command::Login { username, password } => CommandView::Login {
                username: username@,
                password: password@,
            },
            Command::Keygen => CommandView::Keygen,
            Command::Create { name, members } => CommandView::Create {
                name: name@,
                members: strings_view(members@),
            },
            Command::Join { target } => CommandView::Join { target: opt_view(*target) },
            Command::Invite { members } => CommandView::Invite { members: strings_view(members@) },
            Command::Kick { username } => CommandView::Kick { username: username@ },
            Command::Leave => CommandView::Leave,
            Command::Part => CommandView::Part,
            Command::Rotate => CommandView::Rotate,
            Command::Reset => CommandView::Reset,
            Command::Info => CommandView::Info,
            Command::Rooms => CommandView::Rooms,
            Command::Who => CommandView::Who,
            Command::Msg { room, text } => CommandView::Msg { room: room@, text: text@ },
            Command::Unread => CommandView::Unread,
            Command::Logout => CommandView::Logout,
            Command::Me => CommandView::Me,
            Command::Help => CommandView::Help,
            Command::Quit => CommandView::Quit,
            Command::Message { text } => CommandView::Message { text: text@ },
        }
    }
}

/// What a parse yields: a command, or the message of the error.
pub type ParseOutcome = std::result::Result<CommandView, Seq<char>>;

/// `r` is the executable form of the outcome `s`.
pub open spec fn outcome_matches(r: Result<Command>, s: ParseOutcome) -> bool {
    match r {
        Ok(c) => s == Ok::<CommandView, Seq<char>>(c@),
        Err(e) => e matches Error::Other(m) && s == Err::<CommandView, Seq<char>>(m@),
    }
}

/// The error for a name that is no command.
pub open spec fn unknown_msg(cmd: Seq<char>) -> Seq<char> {
    "Unknown command: "@ + cmd + ". Type /help for available commands."@
}

/// What the words of a command line (split at the first two spaces) ask for.
pub open spec fn parse_words_spec(parts: Seq<Seq<char>>) -> ParseOutcome {
    let cmd = parts[0];
    if cmd == "/register"@ {
        if parts.len() < 3 {
            Err("Usage: /register <username> <password>"@)
        } else {
            Ok(CommandView::Register { username: parts[1], password: parts[2] })
        }
    } else if cmd == "/login"@ {
        if parts.len() < 3 {
            Err("Usage: /login <username> <password>"@)
        } else {
            Ok(CommandView::Login { username: parts[1], password: parts[2] })
        }
    } else if cmd == "/keygen"@ {
        Ok(CommandView::Keygen)
    } else if cmd == "/create"@ {
        if parts.len() < 3 {
            Err("Usage: /create <name> <member1,member2,...>"@)
        } else {
            Ok(CommandView::Create { name: parts[1], members: member_list_spec(parts[2]) })
        }
    } else if cmd == "/join"@ {
        Ok(
            CommandView::Join {
                target: if parts.len() >= 2 {
                    Some(parts[1])
                } else {
                    None
                },
            },
        )
    } else if cmd == "/invite"@ {
        if parts.len() < 2 {
            Err("Usage: /invite <member1,member2,...>"@)
        } else {
            Ok(CommandView::Invite { members: member_list_spec(parts[1]) })
        }
    } else if cmd == "/kick"@ {
        if parts.len() < 2 {
            Err("Usage: /kick <username>"@)
        } else {
            Ok(CommandView::Kick { username: parts[1] })
        }
    } else if cmd == "/leave"@ {
        Ok(CommandView::Leave)
    } else if cmd == "/part"@ {
        Ok(CommandView::Part)
    } else if cmd == "/rotate"@ {
        Ok(CommandView::Rotate)
    } else if cmd == "/reset"@ {
        Ok(CommandView::Reset)
    } else if cmd == "/info"@ {
        Ok(CommandView::Info)
    } else if cmd == "/rooms"@ || cmd == "/list"@ {
        Ok(CommandView::Rooms)
    } else if cmd == "/who"@ {
        Ok(CommandView::Who)
    } else if cmd == "/msg"@ {
        if parts.len() < 3 {
            Err("Usage: /msg <room> <message>"@)
        } else {
            Ok(CommandView::Msg { room: parts[1], text: parts[2] })
        }
    } else if cmd == "/unread"@ {
        Ok(CommandView::Unread)
    } else if cmd == "/logout"@ {
        Ok(CommandView::Logout)
    } else if cmd == "/me"@ {
        Ok(CommandView::Me)
    } else if cmd == "/help"@ || cmd == "/h"@ {
        Ok(CommandView::Help)
    } else if cmd == "/quit"@ || cmd == "/exit"@ || cmd == "/q"@ {
        Ok(CommandView::Quit)
    } else {
        Err(unknown_msg(cmd))
    }
}

/// A line that does not start with `/` is a message; otherwise its first
/// word names the command, the second and the rest of the line are its
/// arguments.
pub open spec fn parse_spec(input: Seq<char>) -> ParseOutcome {
    if !(input.len() > 0 && input[0] == '/') {
        Ok(CommandView::Message { text: input })
    } else {
        parse_words_spec(splitn_spec(input, 3, ' '))
    }
}

fn other(msg: &str) -> (e: Error)
    ensures
        e matches Error::Other(m) && m@ == msg@,
{
    Error::Other(owned(msg))
}

fn text_of(c: &Vec<char>) -> (s: String)
    ensures
        s@ == c@,
{
    string_from_chars(c.as_slice())
}

fn parse_words(parts: &Vec<Vec<char>>) -> (r: Result<Command>)
    requires
        1 <= parts@.len() <= 3,
    ensures
        outcome_matches(r, parse_words_spec(views(parts@))),
{
    let ghost pv = views(parts@);
    assert(forall|k: int| 0 <= k < parts@.len() ==> pv[k] == (#[trigger] parts@[k])@);
    let cmd = &parts[0];
    let n = parts.len();
    if chars_eq_str(cmd.as_slice(), "/register") {
        if n < 3 {
            return Err(other("Usage: /register <username> <password>"));
        }
        return Ok(Command::Register { username: text_of(&parts[1]), password: text_of(&parts[2]) });
    }
    if chars_eq_str(cmd.as_slice(), "/login") {
        if n < 3 {
            return Err(other("Usage: /login <username> <password>"));
        }
        return Ok(Command::Login { username: text_of(&parts[1]), password: text_of(&parts[2]) });
    }
    if chars_eq_str(cmd.as_slice(), "/keygen") {
        return Ok(Command::Keygen);
    }
    if chars_eq_str(cmd.as_slice(), "/create") {
        if n < 3 {
            return Err(other("Usage: /create <name> <member1,member2,...>"));
        }
        return Ok(Command::Create { name: text_of(&parts[1]), members: member_list(&parts[2]) });
    }
    if chars_eq_str(cmd.as_slice(), "/join") {
        let target = if n >= 2 {
            Some(text_of(&parts[1]))
        } else {
            None
        };
        return Ok(Command::Join { target });
    }
    if chars_eq_str(cmd.as_slice(), "/invite") {
        if n < 2 {
            return Err(other("Usage: /invite <member1,member2,...>"));
        }
        return Ok(Command::Invite { members: member_list(&parts[1]) });
    }
    if chars_eq_str(cmd.as_slice(), "/kick") {
        if n < 2 {
            return Err(other("Usage: /kick <username>"));
        }
        return Ok(Command::Kick { username: text_of(&parts[1]) });
    }
    if chars_eq_str(cmd.as_slice(), "/leave") {
        return Ok(Command::Leave);
    }
    if chars_eq_str(cmd.as_slice(), "/part") {
        return Ok(Command::Part);
    }
    if chars_eq_str(cmd.as_slice(), "/rotate") {
        return Ok(Command::Rotate);
    }
    if chars_eq_str(cmd.as_slice(), "/reset") {
        return Ok(Command::Reset);
    }
    if chars_eq_str(cmd.as_slice(), "/info") {
        return Ok(Command::Info);
    }
    if chars_eq_str(cmd.as_slice(), "/rooms") || chars_eq_str(cmd.as_slice(), "/list") {
        return Ok(Command::Rooms);
    }
    if chars_eq_str(cmd.as_slice(), "/who") {
        return Ok(Command::Who);
    }
    if chars_eq_str(cmd.as_slice(), "/msg") {
        if n < 3 {
            return Err(other("Usage: /msg <room> <message>"));
        }
        return Ok(Command::Msg { room: text_of(&parts[1]), text: text_of(&parts[2]) });
    }
    if chars_eq_str(cmd.as_slice(), "/unread") {
        return Ok(Command::Unread);
    }
    if chars_eq_str(cmd.as_slice(), "/logout") {
        return Ok(Command::Logout);
    }
    if chars_eq_str(cmd.as_slice(), "/me") {
        return Ok(Command::Me);
    }
    if chars_eq_str(cmd.as_slice(), "/help") || chars_eq_str(cmd.as_slice(), "/h") {
        return Ok(Command::Help);
    }
    if chars_eq_str(cmd.as_slice(), "/quit") || chars_eq_str(cmd.as_slice(), "/exit")
        || chars_eq_str(cmd.as_slice(), "/q") {
        return Ok(Command::Quit);
    }
    let mut msg: Vec<char> = Vec::new();
    push_str(&mut msg, "Unknown command: ");
    push_all(&mut msg, cmd.as_slice());
    push_str(&mut msg, ". Type /help for available commands.");
    Err(Error::Other(string_from_chars(msg.as_slice())))
}

/// Parse user input into a command: text without a leading `/` is a
/// message for the active room; otherwise the first word names a command.
pub fn parse(input: &str) -> (r: Result<Command>)
    ensures
        outcome_matches(r, parse_spec(input@)),
{
    let chars = chars_of(input);
    if !(chars.len() > 0 && chars[0] == '/') {
        return Ok(Command::Message { text: text_of(&chars) });
    }
    let parts = splitn(chars.as_slice(), 3, ' ');
    proof {
        lemma_splitn_len(chars@, 3, ' ');
    }
    parse_words(&parts)
}

/// The lines of the help text.
pub open spec fn help_text_spec() -> Seq<Seq<char>> {
    seq![
        "/register <user> <pass>       Register a new account"@,
        "/login <user> <pass>          Login to the server"@,
        "/keygen                       Generate and upload a key package"@,
        "/create <name> <user1,user2>  Create a room with members"@,
        "/join                         Accept pending invitations"@,
        "/join <room>                  Switch to a room"@,
        "/invite <user1,user2>         Invite to the active room"@,
        "/kick <username>              Remove a member from the room"@,
        "/leave                        Leave the room (MLS removal)"@,
        "/part                         Switch away without leaving"@,
        "/rotate                       Rotate keys (forward secrecy)"@,
        "/reset                        Reset account and rejoin groups"@,
        "/info                         Show MLS group details"@,
        "/rooms                        List your rooms"@,
        "/unread                       Check rooms for new messages"@,
        "/logout                       Logout and revoke session"@,
        "/who                          List members of active room"@,
        "/msg <room> <text>            Send to a room without switching"@,
        "/me                           Show current user info"@,
        "/help                         Show this help"@,
        "/quit                         Exit"@,
        ""@,
        "Type text without / to send a message to the active room."@,
    ]
}

/// The lines of the help text, in order.
pub fn help_text() -> (r: Vec<&'static str>)
    ensures
        r@.map_values(|s: &str| s@) == help_text_spec(),
{
    let r: Vec<&'static str> = vec![
        "/register <user> <pass>       Register a new account",
        "/login <user> <pass>          Login to the server",
        "/keygen                       Generate and upload a key package",
        "/create <name> <user1,user2>  Create a room with members",
        "/join                         Accept pending invitations",
        "/join <room>                  Switch to a room",
        "/invite <user1,user2>         Invite to the active room",
        "/kick <username>              Remove a member from the room",
        "/leave                        Leave the room (MLS removal)",
        "/part                         Switch away without leaving",
        "/rotate                       Rotate keys (forward secrecy)",
        "/reset                        Reset account and rejoin groups",
        "/info                         Show MLS group details",
        "/rooms                        List your rooms",
        "/unread                       Check rooms for new messages",
        "/logout                       Logout and revoke session",
        "/who                          List members of active room",
        "/msg <room> <text>            Send to a room without switching",
        "/me                           Show current user info",
        "/help                         Show this help",
        "/quit                         Exit",
        "",
        "Type text without / to send a message to the active room.",
    ];
    assert(r@.map_values(|s: &str| s@) =~= help_text_spec());
    r
}

/// A line that does not start with `/` is a message with that very text.
pub proof fn lemma_plain_text_is_message(input: Seq<char>)
    requires
        !(input.len() > 0 && input[0] == '/'),
    ensures
        parse_spec(input) == Ok::<CommandView, Seq<char>>(CommandView::Message { text: input }),
{
}

/// Some room's name equals, or starts with, the lowercased target.
pub open spec fn name_matches(rooms: Map<u128, Room>, lower: Seq<char>) -> bool {
    exists|k: u128|
        #[trigger] rooms.contains_key(k) && (named_exactly(rooms[k], lower) || named_by_prefix(
            rooms[k],
            lower,
        ))
}

/// The rooms a name lookup may find: one named exactly so when there is
/// one, otherwise one whose name starts with the target.
pub open spec fn name_pick(rooms: Map<u128, Room>, lower: Seq<char>, k: u128) -> bool {
    &&& rooms.contains_key(k)
    &&& if exists|g: u128| #[trigger] rooms.contains_key(g) && named_exactly(rooms[g], lower) {
        named_exactly(rooms[k], lower)
    } else {
        named_by_prefix(rooms[k], lower)
    }
}

/// Some room is keyed by the very text of the target.
pub open spec fn id_matches(rooms: Map<u128, Room>, target: Seq<char>) -> bool {
    exists|k: u128| #[trigger] rooms.contains_key(k) && uuid_text_spec(k) == target
}

/// A `/join` target names some room: by name, or by the text of its ID.
pub open spec fn joinable(rooms: Map<u128, Room>, target: Seq<char>) -> bool {
    name_matches(rooms, spec_to_lowercase(target)) || id_matches(rooms, target)
}

/// The group a `/join` target picks out: that of a room found by name, or,
/// when no name matches, the room whose ID is written as the target.
pub open spec fn join_pick(rooms: Map<u128, Room>, target: Seq<char>, g: u128) -> bool {
    if name_matches(rooms, spec_to_lowercase(target)) {
        exists|k: u128|
            #[trigger] name_pick(rooms, spec_to_lowercase(target), k) && rooms[k].server_group_id
                == g
    } else {
        rooms.contains_key(g) && uuid_text_spec(g) == target
    }
}

/// The key of the room whose ID is written exactly as the text given.
fn room_by_id_text(rooms: &std::collections::HashMap<u128, Room>, target: &str) -> (r: Option<u128>)
    ensures
        match r {
            Some(k) => rooms@.contains_key(k) && uuid_text_spec(k) == target@,
            None => !id_matches(rooms@, target@),
        },
{
    let keys = crate::state::keys_of(rooms);
    let mut i: usize = 0;
    while i < keys.len()
        invariant
            i <= keys@.len(),
            keys@.to_set() == rooms@.dom(),
            forall|j: int| 0 <= j < i ==> uuid_text_spec(#[trigger] keys@[j]) != target@,
        decreases keys@.len() - i,
    {
        let k = keys[i];
        assert(keys@.to_set().contains(k));
        let text = uuid_to_string(k);
        if crate::text::str_eq(text.as_str(), target) {
            return Some(k);
        }
        i = i + 1;
    }
    assert forall|k: u128| #[trigger] rooms@.contains_key(k) implies uuid_text_spec(k) != target@ by {
        assert(keys@.to_set().contains(k));
        let j = choose|j: int| 0 <= j < keys@.len() && #[trigger] keys@[j] == k;
    }
    None
}

/// The group a `/join` target picks out, if any: that of a room found by
/// name, or else that of the room whose ID is written as the target.
pub fn resolve_join_target(state: &AppState, target: &str) -> (r: Option<u128>)
    ensures
        r is None <==> !joinable(state.rooms@, target@),
        r matches Some(g) ==> join_pick(state.rooms@, target@, g),
{
    let ghost rooms0 = state.rooms@;
    let ghost lower = spec_to_lowercase(target@);
    let by_name: Option<u128> = match state.find_room_by_name(target) {
        Some(room) => {
            proof {
                if exists|g: u128| #[trigger] rooms0.contains_key(g) && named_exactly(rooms0[g], lower) {
                    let k = choose|k: u128|
                        #[trigger] rooms0.contains_key(k) && Some(room) == Some(&rooms0[k])
                            && named_exactly(rooms0[k], lower);
                    assert(name_pick(rooms0, lower, k));
                    assert(name_matches(rooms0, lower));
                } else {
                    let k = choose|k: u128|
                        #[trigger] rooms0.contains_key(k) && Some(room) == Some(&rooms0[k])
                            && named_by_prefix(rooms0[k], lower);
                    assert(name_pick(rooms0, lower, k));
                    assert(name_matches(rooms0, lower));
                }
            }
            Some(room.server_group_id)
        },
        None => {
            proof {
                assert(!name_matches(rooms0, lower));
            }
            None
        },
    };
    let resolved = match by_name {
        Some(g) => Some(g),
        None => room_by_id_text(&state.rooms, target),
    };
    resolved
}

/// Switches the view to the room a `/join` target names, marking its
/// messages read; returns the message to show and the group switched to.
pub fn switch_room(state: &mut AppState, target: &str) -> (r: (DisplayMessage, Option<u128>))
    ensures
        r.0.is_system,
        r.1 is None <==> !joinable(old(state).rooms@, target@),
        match r.1 {
            Some(g) => {
                &&& join_pick(old(state).rooms@, target@, g)
                &&& final(state).active_room == Some(g)
                &&& final(state).scroll_offset == 0
                &&& final(state).rooms@.dom() == old(state).rooms@.dom()
                &&& forall|k: u128|
                    #[trigger] old(state).rooms@.contains_key(k) && k != g ==> final(state).rooms@[k]
                        == old(state).rooms@[k]
                &&& old(state).rooms@.contains_key(g) ==> final(state).rooms@[g] == (Room {
                    last_read_seq: old(state).rooms@[g].last_seen_seq,
                    ..old(state).rooms@[g]
                })
                &&& r.0.content@ == "Switched to #"@ + (if old(state).rooms@.contains_key(g) {
                    old(state).rooms@[g].name@
                } else {
                    Seq::empty()
                })
            },
            None => {
                &&& final(state).active_room == old(state).active_room
                &&& final(state).scroll_offset == old(state).scroll_offset
                &&& final(state).rooms == old(state).rooms
                &&& r.0.content@ == "Unknown room '"@ + target@
                    + "'. Use /rooms to list available rooms."@
            },
        },
        final(state).room_messages == old(state).room_messages,
        final(state).group_mapping == old(state).group_mapping,
        final(state).system_messages == old(state).system_messages,
        final(state).username == old(state).username,
        final(state).user_id == old(state).user_id,
        final(state).logged_in == old(state).logged_in,
{
    let resolved = resolve_join_target(state, target);
    let ghost rooms0 = state.rooms@;
    match resolved {
        Some(g) => {
            let name = match state.rooms.get(&g) {
                Some(r) => owned(r.name.as_str()),
                None => String::new(),
            };
            state.active_room = Some(g);
            state.scroll_offset = 0;
            match state.rooms.remove(&g) {
                Some(room) => {
                    let Room { server_group_id, name: rn, members, last_seen_seq, last_read_seq: _ } =
                        room;
                    state.rooms.insert(
                        g,
                        Room {
                            server_group_id,
                            name: rn,
                            members,
                            last_seen_seq,
                            last_read_seq: last_seen_seq,
                        },
                    );
                    assert(state.rooms@.dom() =~= rooms0.dom());
                },
                None => {},
            }
            let mut out: Vec<char> = Vec::new();
            push_str(&mut out, "Switched to #");
            push_str(&mut out, name.as_str());
            let text = string_from_chars(out.as_slice());
            (DisplayMessage::system(text.as_str()), Some(g))
        },
        None => {
            let mut out: Vec<char> = Vec::new();
            push_str(&mut out, "Unknown room '");
            push_str(&mut out, target);
            push_str(&mut out, "'. Use /rooms to list available rooms.");
            let text = string_from_chars(out.as_slice());
            (DisplayMessage::system(text.as_str()), None)
        },
    }
}

/// Leaves the view of the active room without leaving the group.
pub fn part_room(state: &mut AppState) -> (m: DisplayMessage)
    ensures
        m.is_system,
        final(state).active_room is None,
        match old(state).active_room {
            Some(g) => m.content@ == "Switched away from #"@ + (if old(state).rooms@.contains_key(g) {
                old(state).rooms@[g].name@
            } else {
                Seq::empty()
            }) + " (use /leave to leave the group)"@ && final(state).scroll_offset == 0,
            None => m.content@ == "No active room."@,
        },
        final(state).rooms == old(state).rooms,
{
    match state.active_room {
        Some(g) => {
            state.active_room = None;
            let name = match state.rooms.get(&g) {
                Some(r) => owned(r.name.as_str()),
                None => String::new(),
            };
            state.scroll_offset = 0;
            let mut out: Vec<char> = Vec::new();
            push_str(&mut out, "Switched away from #");
            push_str(&mut out, name.as_str());
            push_str(&mut out, " (use /leave to leave the group)");
            let text = string_from_chars(out.as_slice());
            DisplayMessage::system(text.as_str())
        },
        None => DisplayMessage::system("No active room."),
    }
}

/// The names joined by `", "`.
pub open spec fn joined_spec(names: Seq<Seq<char>>) -> Seq<char>
    decreases names.len(),
{
    if names.len() == 0 {
        Seq::empty()
    } else if names.len() == 1 {
        names[0]
    } else {
        joined_spec(names.drop_last()) + ", "@ + names.last()
    }
}

/// Joins names with `", "`.
pub fn join_names(names: &[String]) -> (r: Vec<char>)
    ensures
        r@ == joined_spec(strings_view(names@)),
{
    let ghost nv = strings_view(names@);
    let mut out: Vec<char> = Vec::new();
    let mut i: usize = 0;
    while i < names.len()
        invariant
            i <= names@.len(),
            nv == strings_view(names@),
            out@ == joined_spec(nv.take(i as int)),
        decreases names@.len() - i,
    {
        proof {
            assert(nv.take(i + 1).drop_last() =~= nv.take(i as int));
        }
        if i > 0 {
            push_str(&mut out, ", ");
        } else {
            assert(nv.take(0) =~= Seq::<Seq<char>>::empty());
        }
        push_str(&mut out, names[i].as_str());
        proof {
            if i == 0 {
                assert(out@ =~= nv.take(1)[0]);
            }
        }
        i = i + 1;
    }
    proof {
        assert(nv.take(nv.len() as int) =~= nv);
    }
    out
}

/// The members of the active room, or a notice that no room is active.
pub fn who(state: &AppState) -> (m: DisplayMessage)
    ensures
        m.is_system,
        m.content@ == match state.active_room {
            Some(g) => if state.rooms@.contains_key(g) {
                "Members of #"@ + state.rooms@[g].name@ + ": "@ + joined_spec(
                    strings_view(state.rooms@[g].members@),
                )
            } else {
                "No active room."@
            },
            None => "No active room."@,
        },
{
    match state.active_room_info() {
        Some(room) => {
            let mut out: Vec<char> = Vec::new();
            push_str(&mut out, "Members of #");
            push_str(&mut out, room.name.as_str());
            push_str(&mut out, ": ");
            let names = join_names(room.members.as_slice());
            crate::text::push_all(&mut out, names.as_slice());
            let text = string_from_chars(out.as_slice());
            DisplayMessage::system(text.as_str())
        },
        None => DisplayMessage::system("No active room."),
    }
}

/// Forgets the session after logging out: no user, no rooms, no mapping,
/// no active room.
pub fn clear_login(state: &mut AppState)
    ensures
        !final(state).logged_in,
        final(state).username is None,
        final(state).user_id is None,
        final(state).active_room is None,
        final(state).rooms@ == Map::<u128, Room>::empty(),
        final(state).group_mapping@ == Map::<u128, String>::empty(),
{
    state.logged_in = false;
    state.username = None;
    state.user_id = None;
    state.active_room = None;
    state.rooms = std::collections::HashMap::new();
    state.group_mapping = std::collections::HashMap::new();
}

/// A password may hold spaces: `/login <user> <password>` keeps
/// everything after the user name, spaces included, as the password.
pub proof fn lemma_login_password_keeps_spaces(user: Seq<char>, password: Seq<char>)
    requires
        forall|k: int| 0 <= k < user.len() ==> user[k] != ' ',
    ensures
        parse_spec("/login"@ + seq![' '] + user + seq![' '] + password) == Ok::<
            CommandView,
            Seq<char>,
        >(CommandView::Login { username: user, password }),
{
    reveal_strlit("/login");
    reveal_strlit("/register");
    let line = "/login"@ + seq![' '] + user + seq![' '] + password;
    assert(line[0] == '/');
    assert(line =~= "/login"@ + seq![' '] + (user + seq![' '] + password));
    crate::text::lemma_splitn_word("/login"@, user + seq![' '] + password, 3, ' ');
    crate::text::lemma_splitn_word(user, password, 2, ' ');
    assert(splitn_spec(password, 1, ' ') == seq![password]);
    let parts = splitn_spec(line, 3, ' ');
    assert(parts =~= seq!["/login"@, user, password]);
    assert(parts[0] != "/register"@) by {
        assert(parts[0].len() != "/register"@.len());
    }
    assert(parse_words_spec(parts) == Ok::<CommandView, Seq<char>>(
        CommandView::Login { username: user, password },
    ));
}

/// The line that lists a room: its name, members, ID, and whether it is
/// the active one.
pub open spec fn room_line_spec(room: Room, active: bool) -> Seq<char> {
    "  #"@ + room.name@ + " ["@ + joined_spec(strings_view(room.members@)) + "] \u{2014} "@
        + uuid_text_spec(room.server_group_id) + (if active {
        " (active)"@
    } else {
        ""@
    })
}

/// The line that lists a room.
pub fn room_line(room: &Room, active: bool) -> (r: String)
    ensures
        r@ == room_line_spec(*room, active),
{
    let mut out: Vec<char> = Vec::new();
    push_str(&mut out, "  #");
    push_str(&mut out, room.name.as_str());
    push_str(&mut out, " [");
    let names = join_names(room.members.as_slice());
    crate::text::push_all(&mut out, names.as_slice());
    push_str(&mut out, "] \u{2014} ");
    let id = uuid_to_string(room.server_group_id);
    push_str(&mut out, id.as_str());
    if active {
        push_str(&mut out, " (active)");
    } else {
        proof {
            reveal_strlit("");
            assert(out@ =~= out@ + ""@);
        }
    }
    string_from_chars(out.as_slice())
}

/// The line for a room with unread messages: those fetched but not viewed
/// plus those the server holds beyond them; none when there are none.
pub fn unread_line(room: &Room, on_server: u64) -> (r: Option<String>)
    requires
        (if room.last_seen_seq < room.last_read_seq {
            0
        } else {
            room.last_seen_seq - room.last_read_seq
        }) + on_server <= u64::MAX,
    ensures
        ({
            let total = (if room.last_seen_seq < room.last_read_seq {
                0
            } else {
                room.last_seen_seq - room.last_read_seq
            }) + on_server;
            match r {
                Some(line) => total > 0 && line@ == "  #"@ + room.name@ + ": "@ + decimal_spec(
                    total as nat,
                ) + " new message"@ + (if total == 1 {
                    ""@
                } else {
                    "s"@
                }),
                None => total == 0,
            }
        }),
{
    let local = room.last_seen_seq.saturating_sub(room.last_read_seq);
    let total = local + on_server;
    if total == 0 {
        return None;
    }
    let mut out: Vec<char> = Vec::new();
    push_str(&mut out, "  #");
    push_str(&mut out, room.name.as_str());
    push_str(&mut out, ": ");
    let digits = u64_to_chars(total);
    crate::text::push_all(&mut out, digits.as_slice());
    push_str(&mut out, " new message");
    if total != 1 {
        push_str(&mut out, "s");
    } else {
        proof {
            reveal_strlit("");
            assert(out@ =~= out@ + ""@);
        }
    }
    Some(string_from_chars(out.as_slice()))
}

/// The lines that describe an MLS group: its room, server and MLS IDs,
/// epoch, cipher suite, and members, this user's marked.
pub open spec fn group_info_lines_spec(
    room_name: Seq<char>,
    group_id: u128,
    mls_group_id: Seq<char>,
    d: GroupDetails,
) -> Seq<Seq<char>> {
    seq![
        "Group: #"@ + room_name,
        "  Server ID: "@ + uuid_text_spec(group_id),
        "  MLS Group ID: "@ + mls_group_id,
        "  Epoch: "@ + decimal_spec(d.epoch as nat),
        "  Cipher Suite: "@ + d.cipher_suite@,
        "  Members: "@ + decimal_spec(d.member_count as nat) + " (your index: "@ + decimal_spec(
            d.own_index as nat,
        ) + ")"@,
    ] + d.members@.map_values(
        |m: (u32, String)|
            "    ["@ + decimal_spec(m.0 as nat) + "] "@ + m.1@ + (if m.0 == d.own_index {
                " (you)"@
            } else {
                ""@
            }),
    )
}

fn cat(parts: &Vec<Vec<char>>) -> (r: String)
    ensures
        r@ == parts@.map_values(|p: Vec<char>| p@).fold_left(
            Seq::<char>::empty(),
            |acc: Seq<char>, p: Seq<char>| acc + p,
        ),
{
    let ghost pv = parts@.map_values(|p: Vec<char>| p@);
    let mut out: Vec<char> = Vec::new();
    let mut i: usize = 0;
    while i < parts.len()
        invariant
            i <= parts@.len(),
            pv == parts@.map_values(|p: Vec<char>| p@),
            out@ == pv.take(i as int).fold_left(
                Seq::<char>::empty(),
                |acc: Seq<char>, p: Seq<char>| acc + p,
            ),
        decreases parts@.len() - i,
    {
        proof {
            assert(pv.take(i + 1).drop_last() =~= pv.take(i as int));
        }
        crate::text::push_all(&mut out, parts[i].as_slice());
        i = i + 1;
    }
    proof {
        assert(pv.take(pv.len() as int) =~= pv);
    }
    string_from_chars(out.as_slice())
}

/// The lines that describe an MLS group.
pub fn group_info_lines(room_name: &str, group_id: u128, mls_group_id: &str, d: &GroupDetails) -> (r:
    Vec<String>)
    ensures
        strings_view(r@) == group_info_lines_spec(room_name@, group_id, mls_group_id@, *d),
{
    let mut out: Vec<String> = Vec::new();
    let l0 = cat(&vec![chars_of("Group: #"), chars_of(room_name)]);
    let id = uuid_to_string(group_id);
    let l1 = cat(&vec![chars_of("  Server ID: "), chars_of(id.as_str())]);
    let l2 = cat(&vec![chars_of("  MLS Group ID: "), chars_of(mls_group_id)]);
    let l3 = cat(&vec![chars_of("  Epoch: "), u64_to_chars(d.epoch)]);
    let l4 = cat(&vec![chars_of("  Cipher Suite: "), chars_of(d.cipher_suite.as_str())]);
    let l5 = cat(
        &vec![
            chars_of("  Members: "),
            u64_to_chars(d.member_count as u64),
            chars_of(" (your index: "),
            u64_to_chars(d.own_index as u64),
            chars_of(")"),
        ],
    );
    proof {
        reveal_with_fuel(Seq::fold_left, 6);
    }
    out.push(l0);
    out.push(l1);
    out.push(l2);
    out.push(l3);
    out.push(l4);
    out.push(l5);
    let ghost head = strings_view(out@);
    let ghost f = |m: (u32, String)|
        "    ["@ + decimal_spec(m.0 as nat) + "] "@ + m.1@ + (if m.0 == d.own_index {
            " (you)"@
        } else {
            ""@
        });
    proof {
        reveal_strlit("");
        assert(head =~= group_info_lines_spec(room_name@, group_id, mls_group_id@, *d).take(6));
    }
    let mut i: usize = 0;
    while i < d.members.len()
        invariant
            i <= d.members@.len(),
            head.len() == 6,
            head == group_info_lines_spec(room_name@, group_id, mls_group_id@, *d).take(6),
            strings_view(out@) == head + d.members@.take(i as int).map_values(f),
            f == (|m: (u32, String)|
                "    ["@ + decimal_spec(m.0 as nat) + "] "@ + m.1@ + (if m.0 == d.own_index {
                    " (you)"@
                } else {
                    ""@
                })),
        decreases d.members@.len() - i,
    {
        let (index, name) = (d.members[i].0, &d.members[i].1);
        let marker: &str = if index == d.own_index {
            " (you)"
        } else {
            ""
        };
        let line = cat(
            &vec![chars_of("    ["), u64_to_chars(index as u64), chars_of("] "), chars_of(name.as_str()), chars_of(marker)],
        );
        proof {
            reveal_with_fuel(Seq::fold_left, 6);
        }
        let ghost before = strings_view(out@);
        out.push(line);
        proof {
            assert(d.members@.take(i + 1) =~= d.members@.take(i as int).push(d.members@[i as int]));
            assert(line@ == f(d.members@[i as int]));
            assert(strings_view(out@) =~= before.push(line@));
            assert(d.members@.take(i + 1).map_values(f) =~= d.members@.take(i as int).map_values(f).push(
                f(d.members@[i as int]),
            ));
        }
        i = i + 1;
    }
    proof {
        assert(d.members@.take(d.members@.len() as int) =~= d.members@);
        assert(strings_view(out@) =~= group_info_lines_spec(room_name@, group_id, mls_group_id@, *d));
    }
    out
}

} // verus!

//! Slash commands of the interactive client: the command registry, the help
//! text built from it, and the parser from an input line to a `Command`.

use vstd::prelude::*;

use crate::error::{Error, Result};
use crate::ids::{parse_uuid, uuid_parse_spec};
use crate::text::{
    chars_eq_str, chars_of, lemma_splitn_head, lemma_splitn_len, lowercase_chars, push_all,
    push_str, slice_chars, spec_to_lowercase, split, split_spec, splitn, splitn_spec,
    string_from_chars, trim, trim_spec, views,
};

verus! {

// ── Registry ──────────────────────────────────────────────────────────

/// The group a command is listed under in the help text.
#[derive(Debug, Clone, Copy, PartialEq, Eq, Structural)]
pub enum CommandCategory {
    Account,
    Rooms,
    Members,
    Invites,
    Security,
    General,
}

/// The heading of a category in the help text.
pub open spec fn category_label_spec(c: CommandCategory) -> Seq<char> {
    match c {
        CommandCategory::Account => "ACCOUNT"@,
        CommandCategory::Rooms => "ROOMS"@,
        CommandCategory::Members => "MEMBERS"@,
        CommandCategory::Invites => "INVITES"@,
        CommandCategory::Security => "SECURITY"@,
        CommandCategory::General => "GENERAL"@,
    }
}

/// The categories in the order the help text lists them.
pub open spec fn category_order() -> Seq<CommandCategory> {
    seq![
        CommandCategory::Account,
        CommandCategory::Rooms,
        CommandCategory::Members,
        CommandCategory::Invites,
        CommandCategory::Security,
        CommandCategory::General,
    ]
}

impl CommandCategory {
    /// The heading of this category in the help text.
    pub fn label(self) -> (r: &'static str)
        ensures
            r@ == category_label_spec(self),
    {
        match self {
            CommandCategory::Account => "ACCOUNT",
            CommandCategory::Rooms => "ROOMS",
            CommandCategory::Members => "MEMBERS",
            CommandCategory::Invites => "INVITES",
            CommandCategory::Security => "SECURITY",
            CommandCategory::General => "GENERAL",
        }
    }

    /// All categories, in help order.
    pub fn all() -> (r: Vec<CommandCategory>)
        ensures
            r@ == category_order(),
    {
        let v = vec![
            CommandCategory::Account,
            CommandCategory::Rooms,
            CommandCategory::Members,
            CommandCategory::Invites,
            CommandCategory::Security,
            CommandCategory::General,
        ];
        assert(v@ =~= category_order());
        v
    }
}

/// A registered command: its name, other names it answers to, its category,
/// and its usage line and description for the help text.
#[derive(Clone, Copy)]
pub struct CommandSpec {
    pub name: &'static str,
    pub aliases: &'static [&'static str],
    pub category: CommandCategory,
    pub usage: &'static str,
    pub description: &'static str,
}

/// One category of the help text with its commands.
pub struct HelpCategory {
    pub label: &'static str,
    pub commands: Vec<CommandSpec>,
}

/// The command registry, in declaration order.
pub open spec fn command_table() -> Seq<CommandSpec> {
    seq![
        CommandSpec { name: "register", aliases: &[], category: CommandCategory::Account, usage: "/register <server> <username> [token]", description: "Register a new account and login" },
        CommandSpec { name: "login", aliases: &[], category: CommandCategory::Account, usage: "/login <server> <username>", description: "Login to the server" },
        CommandSpec { name: "logout", aliases: &[], category: CommandCategory::Account, usage: "/logout", description: "Logout and revoke session" },
        CommandSpec { name: "reset", aliases: &[], category: CommandCategory::Account, usage: "/reset", description: "Reset account and rejoin groups" },
        CommandSpec { name: "alias", aliases: &["nick"], category: CommandCategory::Account, usage: "/alias <name>", description: "Set your display name" },
        CommandSpec { name: "passwd", aliases: &[], category: CommandCategory::Account, usage: "/passwd", description: "Change your password" },
        CommandSpec { name: "expunge", aliases: &[], category: CommandCategory::Account, usage: "/expunge", description: "Permanently delete your account and all data" },
        CommandSpec { name: "create", aliases: &[], category: CommandCategory::Rooms, usage: "/create <name>", description: "Create a new room" },
        CommandSpec { name: "rooms", aliases: &["list"], category: CommandCategory::Rooms, usage: "/rooms", description: "List your rooms" },
        CommandSpec { name: "join", aliases: &[], category: CommandCategory::Rooms, usage: "/join [room]", description: "Accept invitations, switch to a room, or join a public room" },
        CommandSpec { name: "close", aliases: &[], category: CommandCategory::Rooms, usage: "/close", description: "Switch away without leaving" },
        CommandSpec { name: "part", aliases: &[], category: CommandCategory::Rooms, usage: "/part", description: "Leave the room (MLS removal)" },
        CommandSpec { name: "info", aliases: &[], category: CommandCategory::Rooms, usage: "/info", description: "Show MLS group details" },
        CommandSpec { name: "topic", aliases: &[], category: CommandCategory::Rooms, usage: "/topic <text>", description: "Set active room's display name" },
        CommandSpec { name: "unread", aliases: &[], category: CommandCategory::Rooms, usage: "/unread", description: "Check rooms for new messages" },
        CommandSpec { name: "expire", aliases: &[], category: CommandCategory::Rooms, usage: "/expire [duration]", description: "Set or view message expiration policy" },
        CommandSpec { name: "delete", aliases: &[], category: CommandCategory::Rooms, usage: "/delete", description: "Delete the active room (admin only)" },
        CommandSpec { name: "visibility", aliases: &[], category: CommandCategory::Rooms, usage: "/visibility [public|private]", description: "Show or set room visibility (admin only to set)" },
        CommandSpec { name: "discover", aliases: &[], category: CommandCategory::Rooms, usage: "/discover [pattern]", description: "List public rooms" },
        CommandSpec { name: "members", aliases: &["who"], category: CommandCategory::Members, usage: "/members", description: "List members of active room" },
        CommandSpec { name: "whois", aliases: &[], category: CommandCategory::Members, usage: "/whois [username]", description: "Show user info and fingerprint" },
        CommandSpec { name: "invite", aliases: &[], category: CommandCategory::Members, usage: "/invite <user1,user2>", description: "Invite to the active room" },
        CommandSpec { name: "kick", aliases: &[], category: CommandCategory::Members, usage: "/kick <username>", description: "Remove a member from the room" },
        CommandSpec { name: "promote", aliases: &[], category: CommandCategory::Members, usage: "/promote <username>", description: "Promote a member to admin" },
        CommandSpec { name: "demote", aliases: &[], category: CommandCategory::Members, usage: "/demote <username>", description: "Demote an admin to member" },
        CommandSpec { name: "admins", aliases: &[], category: CommandCategory::Members, usage: "/admins", description: "List admins of active room" },
        CommandSpec { name: "invited", aliases: &[], category: CommandCategory::Members, usage: "/invited", description: "List pending invites for active room" },
        CommandSpec { name: "uninvite", aliases: &[], category: CommandCategory::Members, usage: "/uninvite <username>", description: "Cancel a pending invite" },
        CommandSpec { name: "ban", aliases: &[], category: CommandCategory::Members, usage: "/ban <username>", description: "Ban a member from the room" },
        CommandSpec { name: "unban", aliases: &[], category: CommandCategory::Members, usage: "/unban <username>", description: "Unban a user from the room" },
        CommandSpec { name: "banned", aliases: &[], category: CommandCategory::Members, usage: "/banned", description: "List banned users in the room" },
        CommandSpec { name: "invites", aliases: &[], category: CommandCategory::Invites, usage: "/invites", description: "List pending invitations" },
        CommandSpec { name: "accept", aliases: &[], category: CommandCategory::Invites, usage: "/accept [id]", description: "Accept a pending invite (or all)" },
        CommandSpec { name: "decline", aliases: &[], category: CommandCategory::Invites, usage: "/decline <id>", description: "Decline a pending invite" },
        CommandSpec { name: "rotate", aliases: &[], category: CommandCategory::Security, usage: "/rotate", description: "Rotate keys (forward secrecy)" },
        CommandSpec { name: "trusted", aliases: &[], category: CommandCategory::Security, usage: "/trusted", description: "List all known user fingerprints" },
        CommandSpec { name: "unverify", aliases: &[], category: CommandCategory::Security, usage: "/unverify <username>", description: "Remove verification for a user's signing key" },
        CommandSpec { name: "verify", aliases: &[], category: CommandCategory::Security, usage: "/verify <user> <fingerprint>", description: "Verify a user's signing key fingerprint" },
        CommandSpec { name: "help", aliases: &["h"], category: CommandCategory::General, usage: "/help", description: "Show this help" },
        CommandSpec { name: "quit", aliases: &["exit", "q"], category: CommandCategory::General, usage: "/quit", description: "Exit" },
    ]
}

/// The command registry, in declaration order.
pub fn commands() -> (r: Vec<CommandSpec>)
    ensures
        r@ == command_table(),
{
    let v = vec![
        CommandSpec { name: "register", aliases: &[], category: CommandCategory::Account, usage: "/register <server> <username> [token]", description: "Register a new account and login" },
        CommandSpec { name: "login", aliases: &[], category: CommandCategory::Account, usage: "/login <server> <username>", description: "Login to the server" },
        CommandSpec { name: "logout", aliases: &[], category: CommandCategory::Account, usage: "/logout", description: "Logout and revoke session" },
        CommandSpec { name: "reset", aliases: &[], category: CommandCategory::Account, usage: "/reset", description: "Reset account and rejoin groups" },
        CommandSpec { name: "alias", aliases: &["nick"], category: CommandCategory::Account, usage: "/alias <name>", description: "Set your display name" },
        CommandSpec { name: "passwd", aliases: &[], category: CommandCategory::Account, usage: "/passwd", description: "Change your password" },
        CommandSpec { name: "expunge", aliases: &[], category: CommandCategory::Account, usage: "/expunge", description: "Permanently delete your account and all data" },
        CommandSpec { name: "create", aliases: &[], category: CommandCategory::Rooms, usage: "/create <name>", description: "Create a new room" },
        CommandSpec { name: "rooms", aliases: &["list"], category: CommandCategory::Rooms, usage: "/rooms", description: "List your rooms" },
        CommandSpec { name: "join", aliases: &[], category: CommandCategory::Rooms, usage: "/join [room]", description: "Accept invitations, switch to a room, or join a public room" },
        CommandSpec { name: "close", aliases: &[], category: CommandCategory::Rooms, usage: "/close", description: "Switch away without leaving" },
        CommandSpec { name: "part", aliases: &[], category: CommandCategory::Rooms, usage: "/part", description: "Leave the room (MLS removal)" },
        CommandSpec { name: "info", aliases: &[], category: CommandCategory::Rooms, usage: "/info", description: "Show MLS group details" },
        CommandSpec { name: "topic", aliases: &[], category: CommandCategory::Rooms, usage: "/topic <text>", description: "Set active room's display name" },
        CommandSpec { name: "unread", aliases: &[], category: CommandCategory::Rooms, usage: "/unread", description: "Check rooms for new messages" },
        CommandSpec { name: "expire", aliases: &[], category: CommandCategory::Rooms, usage: "/expire [duration]", description: "Set or view message expiration policy" },
        CommandSpec { name: "delete", aliases: &[], category: CommandCategory::Rooms, usage: "/delete", description: "Delete the active room (admin only)" },
        CommandSpec { name: "visibility", aliases: &[], category: CommandCategory::Rooms, usage: "/visibility [public|private]", description: "Show or set room visibility (admin only to set)" },
        CommandSpec { name: "discover", aliases: &[], category: CommandCategory::Rooms, usage: "/discover [pattern]", description: "List public rooms" },
        CommandSpec { name: "members", aliases: &["who"], category: CommandCategory::Members, usage: "/members", description: "List members of active room" },
        CommandSpec { name: "whois", aliases: &[], category: CommandCategory::Members, usage: "/whois [username]", description: "Show user info and fingerprint" },
        CommandSpec { name: "invite", aliases: &[], category: CommandCategory::Members, usage: "/invite <user1,user2>", description: "Invite to the active room" },
        CommandSpec { name: "kick", aliases: &[], category: CommandCategory::Members, usage: "/kick <username>", description: "Remove a member from the room" },
        CommandSpec { name: "promote", aliases: &[], category: CommandCategory::Members, usage: "/promote <username>", description: "Promote a member to admin" },
        CommandSpec { name: "demote", aliases: &[], category: CommandCategory::Members, usage: "/demote <username>", description: "Demote an admin to member" },
        CommandSpec { name: "admins", aliases: &[], category: CommandCategory::Members, usage: "/admins", description: "List admins of active room" },
        CommandSpec { name: "invited", aliases: &[], category: CommandCategory::Members, usage: "/invited", description: "List pending invites for active room" },
        CommandSpec { name: "uninvite", aliases: &[], category: CommandCategory::Members, usage: "/uninvite <username>", description: "Cancel a pending invite" },
        CommandSpec { name: "ban", aliases: &[], category: CommandCategory::Members, usage: "/ban <username>", description: "Ban a member from the room" },
        CommandSpec { name: "unban", aliases: &[], category: CommandCategory::Members, usage: "/unban <username>", description: "Unban a user from the room" },
        CommandSpec { name: "banned", aliases: &[], category: CommandCategory::Members, usage: "/banned", description: "List banned users in the room" },
        CommandSpec { name: "invites", aliases: &[], category: CommandCategory::Invites, usage: "/invites", description: "List pending invitations" },
        CommandSpec { name: "accept", aliases: &[], category: CommandCategory::Invites, usage: "/accept [id]", description: "Accept a pending invite (or all)" },
        CommandSpec { name: "decline", aliases: &[], category: CommandCategory::Invites, usage: "/decline <id>", description: "Decline a pending invite" },
        CommandSpec { name: "rotate", aliases: &[], category: CommandCategory::Security, usage: "/rotate", description: "Rotate keys (forward secrecy)" },
        CommandSpec { name: "trusted", aliases: &[], category: CommandCategory::Security, usage: "/trusted", description: "List all known user fingerprints" },
        CommandSpec { name: "unverify", aliases: &[], category: CommandCategory::Security, usage: "/unverify <username>", description: "Remove verification for a user's signing key" },
        CommandSpec { name: "verify", aliases: &[], category: CommandCategory::Security, usage: "/verify <user> <fingerprint>", description: "Verify a user's signing key fingerprint" },
        CommandSpec { name: "help", aliases: &["h"], category: CommandCategory::General, usage: "/help", description: "Show this help" },
        CommandSpec { name: "quit", aliases: &["exit", "q"], category: CommandCategory::General, usage: "/quit", description: "Exit" },
    ];
    assert(v@ =~= command_table());
    v
}

/// `spec` answers to `name`, by its own name or one of its aliases.
pub open spec fn answers_to(spec: CommandSpec, name: Seq<char>) -> bool {
    spec.name@ == name || exists|j: int|
        0 <= j < spec.aliases@.len() && (#[trigger] spec.aliases@[j])@ == name
}

/// The first entry of `t` that answers to `name`.
pub open spec fn first_match(t: Seq<CommandSpec>, name: Seq<char>) -> Option<CommandSpec>
    decreases t.len(),
{
    if t.len() == 0 {
        None
    } else if answers_to(t[0], name) {
        Some(t[0])
    } else {
        first_match(t.drop_first(), name)
    }
}

/// The registry entry that answers to `name`, if any.
pub open spec fn lookup_spec(name: Seq<char>) -> Option<CommandSpec> {
    first_match(command_table(), name)
}

/// Whether `spec` answers to `name`.
fn spec_answers_to(spec: &CommandSpec, name: &str) -> (r: bool)
    ensures
        r == answers_to(*spec, name@),
{
    if crate::text::str_eq(spec.name, name) {
        return true;
    }
    let aliases = spec.aliases;
    let mut j: usize = 0;
    while j < aliases.len()
        invariant
            aliases@ == spec.aliases@,
            j <= aliases@.len(),
            spec.name@ != name@,
            forall|k: int| 0 <= k < j ==> (#[trigger] aliases@[k])@ != name@,
        decreases aliases@.len() - j,
    {
        if crate::text::str_eq(aliases[j], name) {
            return true;
        }
        j = j + 1;
    }
    false
}

/// Finds the registry entry that answers to `name`.
fn lookup_command(name: &str) -> (r: Option<CommandSpec>)
    ensures
        r == lookup_spec(name@),
{
    let table = commands();
    let mut i: usize = 0;
    assert(table@.skip(0) =~= table@);
    while i < table.len()
        invariant
            table@ == command_table(),
            i <= table@.len(),
            first_match(table@, name@) == first_match(table@.skip(i as int), name@),
        decreases table@.len() - i,
    {
        let spec = table[i];
        assert(table@.skip(i as int)[0] == spec);
        assert(table@.skip(i as int).drop_first() =~= table@.skip(i + 1));
        if spec_answers_to(&spec, name) {
            return Some(spec);
        }
        i = i + 1;
    }
    None
}

// ── Commands ──────────────────────────────────────────────────────────

/// A command parsed from user input.
#[allow(inconsistent_fields)]
pub enum Command {
    // Account
    Register { server: String, username: String, token: Option<String> },
    Login { server: String, username: String },
    Logout,
    Reset,
    Alias { alias: String },
    Whois { username: Option<String> },
    Verify { username: String, fingerprint: String },
    Unverify { username: String },
    Trusted,
    Passwd,
    Expunge { password: Option<String> },
    // Rooms
    Create { name: String },
    /// No argument: accept pending welcomes. With an argument: switch to room.
    Join { target: Option<String> },
    Rooms,
    Close,
    Part,
    Info,
    Topic { topic: String },
    Unread,
    Expire { duration: Option<String> },
    Delete,
    Visibility { visibility: Option<String> },
    Discover { pattern: Option<String> },
    // Members
    Members,
    Invite { members: Vec<String> },
    Kick { username: String },
    Promote { username: String },
    Demote { username: String },
    Admins,
    Invited,
    Uninvite { username: String },
    Ban { username: String },
    Unban { username: String },
    Banned,
    // Invites
    Invites,
    Accept { invite_id: Option<u128> },
    Decline { invite_id: u128 },
    // Security
    Rotate,
    /// Plain text (not a slash command).
    Message { text: String },
    // General
    Help,
    Quit,
}

/// A command with its text fields as character sequences.
#[allow(inconsistent_fields)]
pub enum CommandView {
    Register { server: Seq<char>, username: Seq<char>, token: Option<Seq<char>> },
    Login { server: Seq<char>, username: Seq<char> },
    Logout,
    Reset,
    Alias { alias: Seq<char> },
    Whois { username: Option<Seq<char>> },
    Verify { username: Seq<char>, fingerprint: Seq<char> },
    Unverify { username: Seq<char> },
    Trusted,
    Passwd,
    Expunge { password: Option<Seq<char>> },
    Create { name: Seq<char> },
    Join { target: Option<Seq<char>> },
    Rooms,
    Close,
    Part,
    Info,
    Topic { topic: Seq<char> },
    Unread,
    Expire { duration: Option<Seq<char>> },
    Delete,
    Visibility { visibility: Option<Seq<char>> },
    Discover { pattern: Option<Seq<char>> },
    Members,
    Invite { members: Seq<Seq<char>> },
    Kick { username: Seq<char> },
    Promote { username: Seq<char> },
    Demote { username: Seq<char> },
    Admins,
    Invited,
    Uninvite { username: Seq<char> },
    Ban { username: Seq<char> },
    Unban { username: Seq<char> },
    Banned,
    Invites,
    Accept { invite_id: Option<u128> },
    Decline { invite_id: u128 },
    Rotate,
    Message { text: Seq<char> },
    Help,
    Quit,
}

/// The characters of an optional string.
pub open spec fn opt_view(o: Option<String>) -> Option<Seq<char>> {
    match o {
        Some(s) => Some(s@),
        None => None,
    }
}

/// The characters of each string.
pub open spec fn strings_view(v: Seq<String>) -> Seq<Seq<char>> {
    v.map_values(|s: String| s@)
}

impl View for Command {
    type V = CommandView;

    open spec fn view(&self) -> CommandView {
        match self {
            Command::Register { server, username, token } => CommandView::Register {
                server: server@,
                username: username@,
                token: opt_view(*token),
            },
            Command::Login { server, username } => CommandView::Login {
                server: server@,
                username: username@,
            },
            Command::Logout => CommandView::Logout,
            Command::Reset => CommandView::Reset,
            Command::Alias { alias } => CommandView::Alias { alias: alias@ },
            Command::Whois { username } => CommandView::Whois { username: opt_view(*username) },
            Command::Verify { username, fingerprint } => CommandView::Verify {
                username: username@,
                fingerprint: fingerprint@,
            },
            Command::Unverify { username } => CommandView::Unverify { username: username@ },
            Command::Trusted => CommandView::Trusted,
            Command::Passwd => CommandView::Passwd,
            Command::Expunge { password } => CommandView::Expunge { password: opt_view(*password) },
            Command::Create { name } => CommandView::Create { name: name@ },
            Command::Join { target } => CommandView::Join { target: opt_view(*target) },
            Command::Rooms => CommandView::Rooms,
            Command::Close => CommandView::Close,
            Command::Part => CommandView::Part,
            Command::Info => CommandView::Info,
            Command::Topic { topic } => CommandView::Topic { topic: topic@ },
            Command::Unread => CommandView::Unread,
            Command::Expire { duration } => CommandView::Expire { duration: opt_view(*duration) },
            Command::Delete => CommandView::Delete,
            Command::Visibility { visibility } => CommandView::Visibility {
                visibility: opt_view(*visibility),
            },
            Command::Discover { pattern } => CommandView::Discover { pattern: opt_view(*pattern) },
            Command::Members => CommandView::Members,
            Command::Invite { members } => CommandView::Invite { members: strings_view(members@) },
            Command::Kick { username } => CommandView::Kick { username: username@ },
            Command::Promote { username } => CommandView::Promote { username: username@ },
            Command::Demote { username } => CommandView::Demote { username: username@ },
            Command::Admins => CommandView::Admins,
            Command::Invited => CommandView::Invited,
            Command::Uninvite { username } => CommandView::Uninvite { username: username@ },
            Command::Ban { username } => CommandView::Ban { username: username@ },
            Command::Unban { username } => CommandView::Unban { username: username@ },
            Command::Banned => CommandView::Banned,
            Command::Invites => CommandView::Invites,
            Command::Accept { invite_id } => CommandView::Accept { invite_id: *invite_id },
            Command::Decline { invite_id } => CommandView::Decline { invite_id: *invite_id },
            Command::Rotate => CommandView::Rotate,
            Command::Message { text } => CommandView::Message { text: text@ },
            Command::Help => CommandView::Help,
            Command::Quit => CommandView::Quit,
        }
    }
}

/// What a parse yields: a command, or the message of the error.
pub type ParseOutcome = std::result::Result<CommandView, Seq<char>>;

/// `r` is the executable form of the outcome `s`.
pub open spec fn outcome_matches(r: Result<Command>, s: ParseOutcome) -> bool {
    match r {
        Ok(c) => s == Ok::<CommandView, Seq<char>>(c@),
        Err(e) => e matches Error::Other(m) && s == Err::<CommandView, Seq<char>>(m@),
    }
}

/// `r` is the executable form of the optional outcome `s`.
pub open spec fn opt_outcome_matches(r: Option<Result<Command>>, s: Option<ParseOutcome>) -> bool {
    match r {
        None => s is None,
        Some(x) => s matches Some(y) && outcome_matches(x, y),
    }
}

/// The second piece of a split, if there is one.
pub open spec fn second_piece(parts: Seq<Seq<char>>) -> Option<Seq<char>> {
    if parts.len() >= 2 {
        Some(parts[1])
    } else {
        None
    }
}

/// The input after the command word and one space.
pub open spec fn after_word(parts: Seq<Seq<char>>, input: Seq<char>) -> Seq<char> {
    input.skip(parts[0].len() + 1int)
}

/// A command that takes one word argument, or the usage error without one.
pub open spec fn one_word(
    parts: Seq<Seq<char>>,
    usage: Seq<char>,
    mk: spec_fn(Seq<char>) -> CommandView,
) -> ParseOutcome {
    if parts.len() < 2 {
        Err(usage)
    } else {
        Ok(mk(parts[1]))
    }
}

/// Parsing of the account commands; `None` for other names.
pub open spec fn account_spec(name: Seq<char>, parts: Seq<Seq<char>>, input: Seq<char>) -> Option<
    ParseOutcome,
> {
    if name == "register"@ {
        let p4 = splitn_spec(input, 4, ' ');
        Some(
            if p4.len() == 3 {
                Ok(CommandView::Register { server: p4[1], username: p4[2], token: None })
            } else if p4.len() == 4 {
                Ok(CommandView::Register { server: p4[1], username: p4[2], token: Some(p4[3]) })
            } else {
                Err("Usage: /register <server> <username> [token]"@)
            },
        )
    } else if name == "login"@ {
        Some(
            if parts.len() < 3 {
                Err("Usage: /login <server> <username>"@)
            } else {
                Ok(CommandView::Login { server: parts[1], username: parts[2] })
            },
        )
    } else if name == "logout"@ {
        Some(Ok(CommandView::Logout))
    } else if name == "reset"@ {
        Some(Ok(CommandView::Reset))
    } else if name == "alias"@ {
        Some(
            if parts.len() < 2 {
                Err("Usage: /alias <name>"@)
            } else {
                Ok(CommandView::Alias { alias: after_word(parts, input) })
            },
        )
    } else if name == "whois"@ {
        Some(Ok(CommandView::Whois { username: second_piece(parts) }))
    } else if name == "verify"@ {
        Some(
            if parts.len() < 2 {
                Err("Usage: /verify <username> <fingerprint>"@)
            } else if input.len() <= parts[0].len() + 1 + parts[1].len() + 1 {
                Err("Usage: /verify <username> <fingerprint>"@)
            } else {
                Ok(
                    CommandView::Verify {
                        username: parts[1],
                        fingerprint: input.skip(parts[0].len() + 1 + parts[1].len() + 1int),
                    },
                )
            },
        )
    } else if name == "unverify"@ {
        Some(one_word(parts, "Usage: /unverify <username>"@, |u| CommandView::Unverify { username: u }))
    } else if name == "trusted"@ {
        Some(Ok(CommandView::Trusted))
    } else if name == "passwd"@ {
        Some(Ok(CommandView::Passwd))
    } else if name == "expunge"@ {
        Some(Ok(CommandView::Expunge { password: None }))
    } else {
        None
    }
}

/// Parsing of the room commands; `None` for other names.
pub open spec fn rooms_spec(name: Seq<char>, parts: Seq<Seq<char>>, input: Seq<char>) -> Option<
    ParseOutcome,
> {
    if name == "create"@ {
        Some(one_word(parts, "Usage: /create <name>"@, |n| CommandView::Create { name: n }))
    } else if name == "join"@ {
        Some(Ok(CommandView::Join { target: second_piece(parts) }))
    } else if name == "rooms"@ {
        Some(Ok(CommandView::Rooms))
    } else if name == "close"@ {
        Some(Ok(CommandView::Close))
    } else if name == "part"@ {
        Some(Ok(CommandView::Part))
    } else if name == "info"@ {
        Some(Ok(CommandView::Info))
    } else if name == "topic"@ {
        Some(
            if parts.len() < 2 {
                Err("Usage: /topic <text>"@)
            } else {
                Ok(CommandView::Topic { topic: after_word(parts, input) })
            },
        )
    } else if name == "unread"@ {
        Some(Ok(CommandView::Unread))
    } else if name == "delete"@ {
        Some(Ok(CommandView::Delete))
    } else if name == "expire"@ {
        Some(
            Ok(
                CommandView::Expire {
                    duration: if parts.len() >= 2 {
                        Some(after_word(parts, input))
                    } else {
                        None
                    },
                },
            ),
        )
    } else if name == "visibility"@ {
        Some(
            if parts.len() < 2 {
                Ok(CommandView::Visibility { visibility: None })
            } else {
                let value = spec_to_lowercase(parts[1]);
                if value != "public"@ && value != "private"@ {
                    Err("Usage: /visibility [public|private]"@)
                } else {
                    Ok(CommandView::Visibility { visibility: Some(value) })
                }
            },
        )
    } else if name == "discover"@ {
        Some(Ok(CommandView::Discover { pattern: second_piece(parts) }))
    } else {
        None
    }
}

/// The comma-separated members of an invite, each trimmed.
pub open spec fn member_list_spec(arg: Seq<char>) -> Seq<Seq<char>> {
    split_spec(arg, ',').map_values(|p: Seq<char>| trim_spec(p))
}

/// Parsing of the member commands; `None` for other names.
pub open spec fn members_spec(name: Seq<char>, parts: Seq<Seq<char>>) -> Option<ParseOutcome> {
    if name == "members"@ {
        Some(Ok(CommandView::Members))
    } else if name == "invite"@ {
        Some(
            if parts.len() < 2 {
                Err("Usage: /invite <member1,member2,...>"@)
            } else {
                Ok(CommandView::Invite { members: member_list_spec(parts[1]) })
            },
        )
    } else if name == "kick"@ {
        Some(one_word(parts, "Usage: /kick <username>"@, |u| CommandView::Kick { username: u }))
    } else if name == "promote"@ {
        Some(one_word(parts, "Usage: /promote <username>"@, |u| CommandView::Promote { username: u }))
    } else if name == "demote"@ {
        Some(one_word(parts, "Usage: /demote <username>"@, |u| CommandView::Demote { username: u }))
    } else if name == "admins"@ {
        Some(Ok(CommandView::Admins))
    } else if name == "invited"@ {
        Some(Ok(CommandView::Invited))
    } else if name == "uninvite"@ {
        Some(one_word(parts, "Usage: /uninvite <username>"@, |u| CommandView::Uninvite { username: u }))
    } else if name == "ban"@ {
        Some(one_word(parts, "Usage: /ban <username>"@, |u| CommandView::Ban { username: u }))
    } else if name == "unban"@ {
        Some(one_word(parts, "Usage: /unban <username>"@, |u| CommandView::Unban { username: u }))
    } else if name == "banned"@ {
        Some(Ok(CommandView::Banned))
    } else {
        None
    }
}

/// Parsing of the invite, security and general commands; `None` for other
/// names.
pub open spec fn other_spec(name: Seq<char>, parts: Seq<Seq<char>>) -> Option<ParseOutcome> {
    if name == "invites"@ {
        Some(Ok(CommandView::Invites))
    } else if name == "accept"@ {
        Some(
            if parts.len() >= 2 {
                match uuid_parse_spec(parts[1]) {
                    Some(id) => Ok(CommandView::Accept { invite_id: Some(id) }),
                    None => Err("Usage: /accept [invite_id]"@),
                }
            } else {
                Ok(CommandView::Accept { invite_id: None })
            },
        )
    } else if name == "decline"@ {
        Some(
            if parts.len() < 2 {
                Err("Usage: /decline <invite_id>"@)
            } else {
                match uuid_parse_spec(parts[1]) {
                    Some(id) => Ok(CommandView::Decline { invite_id: id }),
                    None => Err("Usage: /decline <invite_id>"@),
                }
            },
        )
    } else if name == "rotate"@ {
        Some(Ok(CommandView::Rotate))
    } else if name == "help"@ {
        Some(Ok(CommandView::Help))
    } else if name == "quit"@ {
        Some(Ok(CommandView::Quit))
    } else {
        None
    }
}

/// The message of an unknown command.
pub open spec fn unknown_command_msg(name: Seq<char>) -> Seq<char> {
    "Unknown command: /"@ + name + ". Type /help for available commands."@
}

/// Parsing of the arguments of the command with the given registry name.
pub open spec fn parse_args_spec(name: Seq<char>, parts: Seq<Seq<char>>, input: Seq<char>) -> ParseOutcome {
    if let Some(r) = account_spec(name, parts, input) {
        r
    } else if let Some(r) = rooms_spec(name, parts, input) {
        r
    } else if let Some(r) = members_spec(name, parts) {
        r
    } else if let Some(r) = other_spec(name, parts) {
        r
    } else {
        Err(unknown_command_msg(name))
    }
}

/// What `parse` yields for an input line: text that does not start with `/`
/// is a message; otherwise the first word names a registered command (by
/// name or alias), whose arguments are the next words.
pub open spec fn parse_spec(input: Seq<char>) -> ParseOutcome {
    if !(input.len() > 0 && input[0] == '/') {
        Ok(CommandView::Message { text: input })
    } else {
        let parts = splitn_spec(input, 3, ' ');
        let cmd_name = parts[0].drop_first();
        match lookup_spec(cmd_name) {
            None => Err(unknown_command_msg(cmd_name)),
            Some(spec) => parse_args_spec(spec.name@, parts, input),
        }
    }
}

// ── Parser ────────────────────────────────────────────────────────────

/// An `Error::Other` with the given message.
fn usage(msg: &str) -> (e: Error)
    ensures
        e matches Error::Other(m) && m@ == msg@,
{
    Error::Other(crate::text::owned(msg))
}

/// A string of the given characters.
fn text(c: &Vec<char>) -> (s: String)
    ensures
        s@ == c@,
{
    string_from_chars(c.as_slice())
}

/// The second piece of a split as an optional string.
fn second(parts: &Vec<Vec<char>>) -> (r: Option<String>)
    ensures
        opt_view(r) == second_piece(views(parts@)),
{
    if parts.len() >= 2 {
        Some(text(&parts[1]))
    } else {
        None
    }
}

/// The input after the command word and one space, as a string.
fn rest_after_word(parts: &Vec<Vec<char>>, input: &Vec<char>) -> (s: String)
    requires
        parts@.len() >= 1,
        parts@[0]@.len() + 1 <= input@.len(),
    ensures
        s@ == after_word(views(parts@), input@),
{
    let k0 = parts[0].len();
    assert(k0 == parts@[0]@.len());
    assert(k0 < input.len());
    let k = k0 + 1;
    let c = slice_chars(input.as_slice(), k, input.len());
    assert(c@ =~= input@.skip(k as int));
    text(&c)
}

/// The facts about the split of an input line that the parsers rely on.
pub open spec fn split_facts(parts: Seq<Seq<char>>, input: Seq<char>) -> bool {
    &&& parts == splitn_spec(input, 3, ' ')
    &&& 1 <= parts.len() <= 3
    &&& parts.len() >= 2 ==> parts[0].len() + 1 <= input.len()
}

fn parse_account(name: &Vec<char>, parts: &Vec<Vec<char>>, input: &Vec<char>) -> (r: Option<
    Result<Command>,
>)
    requires
        split_facts(views(parts@), input@),
    ensures
        opt_outcome_matches(r, account_spec(name@, views(parts@), input@)),
{
    let ghost p = views(parts@);
    assert(forall|i: int| 0 <= i < parts@.len() ==> #[trigger] p[i] == parts@[i]@);
    if chars_eq_str(name.as_slice(), "register") {
        let p4 = splitn(input.as_slice(), 4, ' ');
        proof {
            assert(forall|i: int| 0 <= i < p4@.len() ==> #[trigger] views(p4@)[i] == p4@[i]@);
        }
        if p4.len() == 3 {
            return Some(
                Ok(Command::Register { server: text(&p4[1]), username: text(&p4[2]), token: None }),
            );
        } else if p4.len() == 4 {
            return Some(
                Ok(
                    Command::Register {
                        server: text(&p4[1]),
                        username: text(&p4[2]),
                        token: Some(text(&p4[3])),
                    },
                ),
            );
        } else {
            return Some(Err(usage("Usage: /register <server> <username> [token]")));
        }
    }
    if chars_eq_str(name.as_slice(), "login") {
        if parts.len() < 3 {
            return Some(Err(usage("Usage: /login <server> <username>")));
        }
        return Some(Ok(Command::Login { server: text(&parts[1]), username: text(&parts[2]) }));
    }
    if chars_eq_str(name.as_slice(), "logout") {
        return Some(Ok(Command::Logout));
    }
    if chars_eq_str(name.as_slice(), "reset") {
        return Some(Ok(Command::Reset));
    }
    if chars_eq_str(name.as_slice(), "alias") {
        if parts.len() < 2 {
            return Some(Err(usage("Usage: /alias <name>")));
        }
        return Some(Ok(Command::Alias { alias: rest_after_word(parts, input) }));
    }
    if chars_eq_str(name.as_slice(), "whois") {
        return Some(Ok(Command::Whois { username: second(parts) }));
    }
    if chars_eq_str(name.as_slice(), "verify") {
        if parts.len() < 2 {
            return Some(Err(usage("Usage: /verify <username> <fingerprint>")));
        }
        let plen: u128 = parts[0].len() as u128 + 1 + parts[1].len() as u128 + 1;
        if (input.len() as u128) <= plen {
            return Some(Err(usage("Usage: /verify <username> <fingerprint>")));
        }
        let k = plen as usize;
        let fp = slice_chars(input.as_slice(), k, input.len());
        assert(fp@ =~= input@.skip(k as int));
        return Some(Ok(Command::Verify { username: text(&parts[1]), fingerprint: text(&fp) }));
    }
    if chars_eq_str(name.as_slice(), "unverify") {
        if parts.len() < 2 {
            return Some(Err(usage("Usage: /unverify <username>")));
        }
        return Some(Ok(Command::Unverify { username: text(&parts[1]) }));
    }
    if chars_eq_str(name.as_slice(), "trusted") {
        return Some(Ok(Command::Trusted));
    }
    if chars_eq_str(name.as_slice(), "passwd") {
        return Some(Ok(Command::Passwd));
    }
    if chars_eq_str(name.as_slice(), "expunge") {
        return Some(Ok(Command::Expunge { password: None }));
    }
    None
}

fn parse_rooms(name: &Vec<char>, parts: &Vec<Vec<char>>, input: &Vec<char>) -> (r: Option<
    Result<Command>,
>)
    requires
        split_facts(views(parts@), input@),
    ensures
        opt_outcome_matches(r, rooms_spec(name@, views(parts@), input@)),
{
    let ghost p = views(parts@);
    assert(forall|i: int| 0 <= i < parts@.len() ==> #[trigger] p[i] == parts@[i]@);
    if chars_eq_str(name.as_slice(), "create") {
        if parts.len() < 2 {
            return Some(Err(usage("Usage: /create <name>")));
        }
        return Some(Ok(Command::Create { name: text(&parts[1]) }));
    }
    if chars_eq_str(name.as_slice(), "join") {
        return Some(Ok(Command::Join { target: second(parts) }));
    }
    if chars_eq_str(name.as_slice(), "rooms") {
        return Some(Ok(Command::Rooms));
    }
    if chars_eq_str(name.as_slice(), "close") {
        return Some(Ok(Command::Close));
    }
    if chars_eq_str(name.as_slice(), "part") {
        return Some(Ok(Command::Part));
    }
    if chars_eq_str(name.as_slice(), "info") {
        return Some(Ok(Command::Info));
    }
    if chars_eq_str(name.as_slice(), "topic") {
        if parts.len() < 2 {
            return Some(Err(usage("Usage: /topic <text>")));
        }
        return Some(Ok(Command::Topic { topic: rest_after_word(parts, input) }));
    }
    if chars_eq_str(name.as_slice(), "unread") {
        return Some(Ok(Command::Unread));
    }
    if chars_eq_str(name.as_slice(), "delete") {
        return Some(Ok(Command::Delete));
    }
    if chars_eq_str(name.as_slice(), "expire") {
        let duration = if parts.len() >= 2 {
            Some(rest_after_word(parts, input))
        } else {
            None
        };
        return Some(Ok(Command::Expire { duration }));
    }
    if chars_eq_str(name.as_slice(), "visibility") {
        if parts.len() < 2 {
            return Some(Ok(Command::Visibility { visibility: None }));
        }
        let value = lowercase_chars(parts[1].as_slice());
        if !chars_eq_str(value.as_slice(), "public") && !chars_eq_str(value.as_slice(), "private") {
            return Some(Err(usage("Usage: /visibility [public|private]")));
        }
        return Some(Ok(Command::Visibility { visibility: Some(text(&value)) }));
    }
    if chars_eq_str(name.as_slice(), "discover") {
        return Some(Ok(Command::Discover { pattern: second(parts) }));
    }
    None
}

/// The comma-separated members of an invite argument, each trimmed.
pub(crate) fn member_list(arg: &Vec<char>) -> (r: Vec<String>)
    ensures
        strings_view(r@) == member_list_spec(arg@),
{
    let pieces = split(arg.as_slice(), ',');
    let ghost target = member_list_spec(arg@);
    let mut out: Vec<String> = Vec::new();
    let mut i: usize = 0;
    while i < pieces.len()
        invariant
            i <= pieces@.len(),
            views(pieces@) == split_spec(arg@, ','),
            target == member_list_spec(arg@),
            target.len() == pieces@.len(),
            strings_view(out@) == target.take(i as int),
        decreases pieces@.len() - i,
    {
        let t = trim(pieces[i].as_slice());
        assert(views(pieces@)[i as int] == pieces@[i as int]@);
        assert(target[i as int] == trim_spec(pieces@[i as int]@));
        let ghost old_out = out@;
        out.push(text(&t));
        assert(strings_view(out@) =~= strings_view(old_out).push(t@));
        assert(strings_view(out@) =~= target.take(i + 1));
        i = i + 1;
    }
    assert(target.take(i as int) =~= target);
    out
}

fn parse_members(name: &Vec<char>, parts: &Vec<Vec<char>>, input: &Vec<char>) -> (r: Option<
    Result<Command>,
>)
    requires
        split_facts(views(parts@), input@),
    ensures
        opt_outcome_matches(r, members_spec(name@, views(parts@))),
{
    let ghost p = views(parts@);
    assert(forall|i: int| 0 <= i < parts@.len() ==> #[trigger] p[i] == parts@[i]@);
    if chars_eq_str(name.as_slice(), "members") {
        return Some(Ok(Command::Members));
    }
    if chars_eq_str(name.as_slice(), "invite") {
        if parts.len() < 2 {
            return Some(Err(usage("Usage: /invite <member1,member2,...>")));
        }
        return Some(Ok(Command::Invite { members: member_list(&parts[1]) }));
    }
    if chars_eq_str(name.as_slice(), "kick") {
        if parts.len() < 2 {
            return Some(Err(usage("Usage: /kick <username>")));
        }
        return Some(Ok(Command::Kick { username: text(&parts[1]) }));
    }
    if chars_eq_str(name.as_slice(), "promote") {
        if parts.len() < 2 {
            return Some(Err(usage("Usage: /promote <username>")));
        }
        return Some(Ok(Command::Promote { username: text(&parts[1]) }));
    }
    if chars_eq_str(name.as_slice(), "demote") {
        if parts.len() < 2 {
            return Some(Err(usage("Usage: /demote <username>")));
        }
        return Some(Ok(Command::Demote { username: text(&parts[1]) }));
    }
    if chars_eq_str(name.as_slice(), "admins") {
        return Some(Ok(Command::Admins));
    }
    if chars_eq_str(name.as_slice(), "invited") {
        return Some(Ok(Command::Invited));
    }
    if chars_eq_str(name.as_slice(), "uninvite") {
        if parts.len() < 2 {
            return Some(Err(usage("Usage: /uninvite <username>")));
        }
        return Some(Ok(Command::Uninvite { username: text(&parts[1]) }));
    }
    if chars_eq_str(name.as_slice(), "ban") {
        if parts.len() < 2 {
            return Some(Err(usage("Usage: /ban <username>")));
        }
        return Some(Ok(Command::Ban { username: text(&parts[1]) }));
    }
    if chars_eq_str(name.as_slice(), "unban") {
        if parts.len() < 2 {
            return Some(Err(usage("Usage: /unban <username>")));
        }
        return Some(Ok(Command::Unban { username: text(&parts[1]) }));
    }
    if chars_eq_str(name.as_slice(), "banned") {
        return Some(Ok(Command::Banned));
    }
    None
}

fn parse_other(name: &Vec<char>, parts: &Vec<Vec<char>>, input: &Vec<char>) -> (r: Option<
    Result<Command>,
>)
    requires
        split_facts(views(parts@), input@),
    ensures
        opt_outcome_matches(r, other_spec(name@, views(parts@))),
{
    let ghost p = views(parts@);
    assert(forall|i: int| 0 <= i < parts@.len() ==> #[trigger] p[i] == parts@[i]@);
    if chars_eq_str(name.as_slice(), "invites") {
        return Some(Ok(Command::Invites));
    }
    if chars_eq_str(name.as_slice(), "accept") {
        if parts.len() >= 2 {
            let s = text(&parts[1]);
            return match parse_uuid(s.as_str()) {
                Some(id) => Some(Ok(Command::Accept { invite_id: Some(id) })),
                None => Some(Err(usage("Usage: /accept [invite_id]"))),
            };
        }
        return Some(Ok(Command::Accept { invite_id: None }));
    }
    if chars_eq_str(name.as_slice(), "decline") {
        if parts.len() < 2 {
            return Some(Err(usage("Usage: /decline <invite_id>")));
        }
        let s = text(&parts[1]);
        return match parse_uuid(s.as_str()) {
            Some(id) => Some(Ok(Command::Decline { invite_id: id })),
            None => Some(Err(usage("Usage: /decline <invite_id>"))),
        };
    }
    if chars_eq_str(name.as_slice(), "rotate") {
        return Some(Ok(Command::Rotate));
    }
    if chars_eq_str(name.as_slice(), "help") {
        return Some(Ok(Command::Help));
    }
    if chars_eq_str(name.as_slice(), "quit") {
        return Some(Ok(Command::Quit));
    }
    None
}

/// The message of an unknown command, as an error.
fn unknown_command(name: &Vec<char>) -> (e: Error)
    ensures
        e matches Error::Other(m) && m@ == unknown_command_msg(name@),
{
    let mut out: Vec<char> = Vec::new();
    push_str(&mut out, "Unknown command: /");
    push_all(&mut out, name.as_slice());
    push_str(&mut out, ". Type /help for available commands.");
    Error::Other(text(&out))
}

fn parse_command_args(name: &Vec<char>, parts: &Vec<Vec<char>>, input: &Vec<char>) -> (r: Result<
    Command,
>)
    requires
        split_facts(views(parts@), input@),
    ensures
        outcome_matches(r, parse_args_spec(name@, views(parts@), input@)),
{
    if let Some(r) = parse_account(name, parts, input) {
        return r;
    }
    if let Some(r) = parse_rooms(name, parts, input) {
        return r;
    }
    if let Some(r) = parse_members(name, parts, input) {
        return r;
    }
    if let Some(r) = parse_other(name, parts, input) {
        return r;
    }
    Err(unknown_command(name))
}

/// Parses user input into a command.
///
/// Text that does not start with `/` is a message for the active room.
/// Otherwise the first word names a registered command or one of its
/// aliases; an unknown name or missing arguments give an error whose message
/// says so.
pub fn parse(input: &str) -> (r: Result<Command>)
    ensures
        outcome_matches(r, parse_spec(input@)),
{
    let chars = chars_of(input);
    if !(chars.len() > 0 && chars[0] == '/') {
        return Ok(Command::Message { text: text(&chars) });
    }
    let parts = splitn(chars.as_slice(), 3, ' ');
    proof {
        lemma_splitn_len(chars@, 3, ' ');
        lemma_splitn_head(chars@, 3, ' ');
        assert(views(parts@)[0] == parts@[0]@);
    }
    let first = &parts[0];
    let cmd_name = if first.len() > 0 {
        slice_chars(first.as_slice(), 1, first.len())
    } else {
        Vec::new()
    };
    assert(cmd_name@ =~= parts@[0]@.drop_first());
    let cmd_str = text(&cmd_name);
    match lookup_command(cmd_str.as_str()) {
        None => Err(unknown_command(&cmd_name)),
        Some(spec) => {
            let spec_name = chars_of(spec.name);
            parse_command_args(&spec_name, &parts, &chars)
        },
    }
}

// ── Help text ─────────────────────────────────────────────────────────

/// `a` is at most `b` in lexicographic order of characters.
pub open spec fn lex_le(a: Seq<char>, b: Seq<char>) -> bool
    decreases a.len(),
{
    if a.len() == 0 {
        true
    } else if b.len() == 0 {
        false
    } else if a[0] != b[0] {
        a[0] < b[0]
    } else {
        lex_le(a.drop_first(), b.drop_first())
    }
}

/// `s` with `x` inserted after every entry whose name is at most `x`'s, as
/// a stable sort by name places it.
pub open spec fn insert_by_name(s: Seq<CommandSpec>, x: CommandSpec) -> Seq<CommandSpec>
    decreases s.len(),
{
    if s.len() == 0 {
        seq![x]
    } else if lex_le(s[0].name@, x.name@) {
        seq![s[0]] + insert_by_name(s.drop_first(), x)
    } else {
        seq![x] + s
    }
}

/// `s` sorted by name, stably (`sort_by_key` on the name).
pub open spec fn sort_by_name(s: Seq<CommandSpec>) -> Seq<CommandSpec>
    decreases s.len(),
{
    if s.len() == 0 {
        s
    } else {
        insert_by_name(sort_by_name(s.drop_last()), s.last())
    }
}

/// The entries of `t` in category `c`, in order.
pub open spec fn in_category(t: Seq<CommandSpec>, c: CommandCategory) -> Seq<CommandSpec>
    decreases t.len(),
{
    if t.len() == 0 {
        t
    } else if t.last().category == c {
        in_category(t.drop_last(), c).push(t.last())
    } else {
        in_category(t.drop_last(), c)
    }
}

/// The registry entries of a category, sorted by name.
pub open spec fn category_commands(c: CommandCategory) -> Seq<CommandSpec> {
    sort_by_name(in_category(command_table(), c))
}

/// The categories of `cats` that have at least one command, in order.
pub open spec fn nonempty_categories(cats: Seq<CommandCategory>) -> Seq<CommandCategory>
    decreases cats.len(),
{
    if cats.len() == 0 {
        cats
    } else if category_commands(cats.last()).len() > 0 {
        nonempty_categories(cats.drop_last()).push(cats.last())
    } else {
        nonempty_categories(cats.drop_last())
    }
}

/// The categories shown in the help text.
pub open spec fn help_category_order() -> Seq<CommandCategory> {
    nonempty_categories(category_order())
}

/// Whether the name of `a` is at most that of `b`.
fn name_le(a: &CommandSpec, b: &CommandSpec) -> (r: bool)
    ensures
        r == lex_le(a.name@, b.name@),
{
    let x = chars_of(a.name);
    let y = chars_of(b.name);
    let mut i: usize = 0;
    assert(x@.skip(0) =~= x@);
    assert(y@.skip(0) =~= y@);
    while i < x.len() && i < y.len() && x[i] == y[i]
        invariant
            i <= x@.len(),
            i <= y@.len(),
            lex_le(x@, y@) == lex_le(x@.skip(i as int), y@.skip(i as int)),
        decreases x@.len() - i,
    {
        assert(x@.skip(i as int).drop_first() =~= x@.skip(i + 1));
        assert(y@.skip(i as int).drop_first() =~= y@.skip(i + 1));
        i = i + 1;
    }
    if i == x.len() {
        true
    } else if i == y.len() {
        false
    } else {
        assert(x@.skip(i as int)[0] == x@[i as int]);
        assert(y@.skip(i as int)[0] == y@[i as int]);
        x[i] < y[i]
    }
}

/// Inserting after a prefix of entries whose names are at most `x`'s.
proof fn lemma_insert_by_name_at(s: Seq<CommandSpec>, x: CommandSpec, p: int)
    requires
        0 <= p <= s.len(),
        forall|j: int| 0 <= j < p ==> lex_le(#[trigger] s[j].name@, x.name@),
        p < s.len() ==> !lex_le(s[p].name@, x.name@),
    ensures
        insert_by_name(s, x) == s.insert(p, x),
    decreases s.len(),
{
    if s.len() == 0 {
        assert(s.insert(p, x) =~= seq![x]);
    } else if p == 0 {
        assert(s.insert(0, x) =~= seq![x] + s);
    } else {
        let t = s.drop_first();
        assert forall|j: int| 0 <= j < p - 1 implies lex_le(#[trigger] t[j].name@, x.name@) by {
            assert(t[j] == s[j + 1]);
        }
        if p < s.len() {
            assert(t[p - 1] == s[p]);
        }
        lemma_insert_by_name_at(t, x, p - 1);
        assert(seq![s[0]] + t.insert(p - 1, x) =~= s.insert(p, x));
    }
}

/// The commands of a category sorted by name: a stable insertion of each
/// registry entry of the category.
fn sorted_commands_of(table: &Vec<CommandSpec>, c: CommandCategory) -> (r: Vec<CommandSpec>)
    ensures
        r@ == sort_by_name(in_category(table@, c)),
{
    let mut out: Vec<CommandSpec> = Vec::new();
    let mut i: usize = 0;
    while i < table.len()
        invariant
            i <= table@.len(),
            out@ == sort_by_name(in_category(table@.take(i as int), c)),
        decreases table@.len() - i,
    {
        let x = table[i];
        let ghost prev = table@.take(i as int);
        assert(table@.take(i + 1).drop_last() =~= prev);
        assert(table@.take(i + 1).last() == x);
        if x.category == c {
            let ghost filtered = in_category(prev, c);
            assert(in_category(table@.take(i + 1), c) == filtered.push(x));
            assert(filtered.push(x).drop_last() =~= filtered);
            let mut p: usize = 0;
            while p < out.len() && name_le(&out[p], &x)
                invariant
                    p <= out@.len(),
                    forall|j: int| 0 <= j < p ==> lex_le(#[trigger] out@[j].name@, x.name@),
                decreases out@.len() - p,
            {
                p = p + 1;
            }
            proof {
                lemma_insert_by_name_at(out@, x, p as int);
            }
            out.insert(p, x);
        } else {
            assert(in_category(table@.take(i + 1), c) == in_category(prev, c));
        }
        i = i + 1;
    }
    assert(table@.take(table@.len() as int) =~= table@);
    out
}

/// The help categories: each category that has commands, in help order,
/// with its commands sorted by name.
pub fn help_categories() -> (r: Vec<HelpCategory>)
    ensures
        r@.len() == help_category_order().len(),
        forall|i: int|
            0 <= i < r@.len() ==> {
                let c = help_category_order()[i];
                &&& (#[trigger] r@[i]).label@ == category_label_spec(c)
                &&& r@[i].commands@ == category_commands(c)
            },
{
    let table = commands();
    let cats = CommandCategory::all();
    let mut out: Vec<HelpCategory> = Vec::new();
    let mut i: usize = 0;
    while i < cats.len()
        invariant
            table@ == command_table(),
            cats@ == category_order(),
            i <= cats@.len(),
            out@.len() == nonempty_categories(cats@.take(i as int)).len(),
            forall|k: int|
                0 <= k < out@.len() ==> {
                    let c = nonempty_categories(cats@.take(i as int))[k];
                    &&& (#[trigger] out@[k]).label@ == category_label_spec(c)
                    &&& out@[k].commands@ == category_commands(c)
                },
        decreases cats@.len() - i,
    {
        let c = cats[i];
        let ghost prev = cats@.take(i as int);
        assert(cats@.take(i + 1).drop_last() =~= prev);
        assert(cats@.take(i + 1).last() == c);
        let cmds = sorted_commands_of(&table, c);
        if cmds.len() > 0 {
            let ghost before = nonempty_categories(prev);
            out.push(HelpCategory { label: c.label(), commands: cmds });
            assert(nonempty_categories(cats@.take(i + 1)) == before.push(c));
        } else {
            assert(nonempty_categories(cats@.take(i + 1)) == nonempty_categories(prev));
        }
        i = i + 1;
    }
    assert(cats@.take(cats@.len() as int) =~= cats@);
    out
}

/// `s` padded with spaces on the right to at least `width` characters.
pub open spec fn pad_right(s: Seq<char>, width: nat) -> Seq<char> {
    if s.len() >= width {
        s
    } else {
        s + Seq::new((width - s.len()) as nat, |j: int| ' ')
    }
}

/// The largest number of characters in a usage line of `t`.
pub open spec fn max_usage_width(t: Seq<CommandSpec>) -> nat
    decreases t.len(),
{
    if t.len() == 0 {
        0
    } else {
        let rest = max_usage_width(t.drop_last());
        if t.last().usage@.len() > rest {
            t.last().usage@.len()
        } else {
            rest
        }
    }
}

/// The help line of a command: two spaces, the usage padded to `width`, two
/// spaces, and the description.
pub open spec fn help_line(spec: CommandSpec, width: nat) -> Seq<char> {
    "  "@ + pad_right(spec.usage@, width) + "  "@ + spec.description@
}

/// The lines of one category: its label with a colon, then its commands.
pub open spec fn category_lines(c: CommandCategory, width: nat) -> Seq<Seq<char>> {
    seq![category_label_spec(c) + ":"@] + category_commands(c).map_values(
        |s: CommandSpec| help_line(s, width),
    )
}

/// The lines of the categories `cats`, separated by blank lines.
pub open spec fn categories_lines(cats: Seq<CommandCategory>, width: nat) -> Seq<Seq<char>>
    decreases cats.len(),
{
    if cats.len() == 0 {
        Seq::<Seq<char>>::empty()
    } else if cats.len() == 1 {
        category_lines(cats[0], width)
    } else {
        categories_lines(cats.drop_last(), width) + seq![Seq::<char>::empty()] + category_lines(
            cats.last(),
            width,
        )
    }
}

/// The full help text, line by line.
pub open spec fn help_lines_spec() -> Seq<Seq<char>> {
    categories_lines(help_category_order(), max_usage_width(command_table())) + seq![
        Seq::<char>::empty(),
        "Type text without / to send a message to the active room."@,
    ]
}

/// The usage line padded with spaces to `width` characters.
fn padded(s: &str, width: usize) -> (r: Vec<char>)
    ensures
        r@ == pad_right(s@, width as nat),
{
    let mut out = chars_of(s);
    if out.len() >= width {
        return out;
    }
    let ghost base = out@;
    let n = width - out.len();
    let mut k: usize = 0;
    while k < n
        invariant
            k <= n,
            n == width - base.len(),
            out@ == base + Seq::new(k as nat, |j: int| ' '),
        decreases n - k,
    {
        out.push(' ');
        k = k + 1;
        assert(out@ =~= base + Seq::new(k as nat, |j: int| ' '));
    }
    out
}

/// The formatted help text, one line per entry: each category heading
/// followed by its commands' usage and description, blank lines between
/// categories, and a closing hint about plain messages.
pub fn format_help_lines() -> (r: Vec<String>)
    ensures
        strings_view(r@) == help_lines_spec(),
{
    let categories = help_categories();
    let table = commands();
    let mut width: usize = 0;
    let mut t: usize = 0;
    while t < table.len()
        invariant
            t <= table@.len(),
            width as nat == max_usage_width(table@.take(t as int)),
        decreases table@.len() - t,
    {
        assert(table@.take(t + 1).drop_last() =~= table@.take(t as int));
        let w = chars_of(table[t].usage).len();
        if w > width {
            width = w;
        }
        t = t + 1;
    }
    assert(table@.take(table@.len() as int) =~= table@);
    let ghost cats = help_category_order();
    let mut lines: Vec<String> = Vec::new();
    let mut index: usize = 0;
    while index < categories.len()
        invariant
            table@ == command_table(),
            width as nat == max_usage_width(command_table()),
            categories@.len() == cats.len(),
            cats == help_category_order(),
            forall|i: int|
                0 <= i < categories@.len() ==> {
                    let c = cats[i];
                    &&& (#[trigger] categories@[i]).label@ == category_label_spec(c)
                    &&& categories@[i].commands@ == category_commands(c)
                },
            index <= categories@.len(),
            strings_view(lines@) == categories_lines(cats.take(index as int), width as nat),
        decreases categories@.len() - index,
    {
        let category = &categories[index];
        let ghost c = cats[index as int];
        let ghost before = strings_view(lines@);
        assert(categories@[index as int] == *category);
        assert(cats.take(index + 1).drop_last() =~= cats.take(index as int));
        assert(cats.take(index + 1).last() == c);
        if index > 0 {
            lines.push(String::new());
        }
        let ghost l1 = strings_view(lines@);
        proof {
            reveal_strlit("");
            if index > 0 {
                assert(l1 =~= before.push(Seq::<char>::empty()));
            } else {
                assert(l1 =~= before);
            }
        }
        let mut head = chars_of(category.label);
        head.push(':');
        lines.push(text(&head));
        let ghost start = strings_view(lines@);
        proof {
            reveal_strlit(":");
            assert(head@ =~= category_label_spec(c) + ":"@);
            assert(start =~= l1.push(category_label_spec(c) + ":"@));
            if index > 0 {
                assert(start =~= before + seq![Seq::<char>::empty()] + seq![
                    category_label_spec(c) + ":"@,
                ]);
            } else {
                assert(cats.take(0) =~= Seq::<CommandCategory>::empty());
                assert(before =~= Seq::<Seq<char>>::empty());
                assert(cats.take(1) =~= seq![c]);
                assert(start =~= seq![category_label_spec(c) + ":"@]);
            }
        }
        let cmds = &category.commands;
        let mut j: usize = 0;
        while j < cmds.len()
            invariant
                j <= cmds@.len(),
                cmds@ == category_commands(c),
                strings_view(lines@) == start + cmds@.take(j as int).map_values(
                    |s: CommandSpec| help_line(s, width as nat),
                ),
            decreases cmds@.len() - j,
        {
            let spec = &cmds[j];
            let mut line: Vec<char> = Vec::new();
            push_str(&mut line, "  ");
            let u = padded(spec.usage, width);
            push_all(&mut line, u.as_slice());
            push_str(&mut line, "  ");
            push_str(&mut line, spec.description);
            let ghost old_lines = strings_view(lines@);
            lines.push(text(&line));
            assert(strings_view(lines@) =~= old_lines.push(line@));
            assert(cmds@.take(j + 1).map_values(|s: CommandSpec| help_line(s, width as nat))
                =~= cmds@.take(j as int).map_values(|s: CommandSpec| help_line(s, width as nat))
                .push(help_line(cmds@[j as int], width as nat)));
            j = j + 1;
        }
        proof {
            assert(cmds@.take(cmds@.len() as int) =~= cmds@);
            if index > 0 {
                assert(strings_view(lines@) =~= categories_lines(
                    cats.take(index + 1),
                    width as nat,
                ));
            } else {
                assert(strings_view(lines@) =~= category_lines(c, width as nat));
            }
        }
        index = index + 1;
    }
    assert(cats.take(categories@.len() as int) =~= cats);
    let ghost body = strings_view(lines@);
    lines.push(String::new());
    let ghost b1 = strings_view(lines@);
    lines.push(crate::text::owned("Type text without / to send a message to the active room."));
    proof {
        reveal_strlit("");
        assert(b1 =~= body.push(Seq::<char>::empty()));
        assert(strings_view(lines@) =~= b1.push(
            "Type text without / to send a message to the active room."@,
        ));
        assert(strings_view(lines@) =~= body + seq![
            Seq::<char>::empty(),
            "Type text without / to send a message to the active room."@,
        ]);
    }
    lines
}

// ── Registry laws ─────────────────────────────────────────────────────

/// A name that some entry of `t` answers to is found by the lookup.
proof fn lemma_first_match_found(t: Seq<CommandSpec>, name: Seq<char>, i: int)
    requires
        0 <= i < t.len(),
        answers_to(t[i], name),
    ensures
        first_match(t, name) is Some,
        answers_to(first_match(t, name)->0, name),
    decreases t.len(),
{
    if !answers_to(t[0], name) {
        assert(t.drop_first()[i - 1] == t[i]);
        lemma_first_match_found(t.drop_first(), name, i - 1);
    }
}

/// The lookup finds the first entry that answers to a name.
proof fn lemma_first_match_at(t: Seq<CommandSpec>, name: Seq<char>, i: int)
    requires
        0 <= i < t.len(),
        answers_to(t[i], name),
        forall|j: int| 0 <= j < i ==> !answers_to(#[trigger] t[j], name),
    ensures
        first_match(t, name) == Some(t[i]),
    decreases i,
{
    if i > 0 {
        assert(!answers_to(t[0], name));
        assert forall|j: int| 0 <= j < i - 1 implies !answers_to(#[trigger] t.drop_first()[j], name) by {
            assert(t.drop_first()[j] == t[j + 1]);
        }
        assert(t.drop_first()[i - 1] == t[i]);
        lemma_first_match_at(t.drop_first(), name, i - 1);
    }
}

/// `/expire` names the `expire` entry of the registry.
proof fn lemma_lookup_expire()
    ensures
        lookup_spec("expire"@) is Some,
        lookup_spec("expire"@)->0.name@ == "expire"@,
{
    let t = command_table();
    let e = "expire"@;
    reveal_strlit("expire");
    reveal_strlit("register");
    reveal_strlit("login");
    reveal_strlit("logout");
    reveal_strlit("reset");
    reveal_strlit("alias");
    reveal_strlit("nick");
    reveal_strlit("passwd");
    reveal_strlit("expunge");
    reveal_strlit("create");
    reveal_strlit("rooms");
    reveal_strlit("list");
    reveal_strlit("join");
    reveal_strlit("close");
    reveal_strlit("part");
    reveal_strlit("info");
    reveal_strlit("topic");
    reveal_strlit("unread");
    assert(t[15].name@ == e);
    assert forall|j: int| 0 <= j < 15 implies !answers_to(#[trigger] t[j], e) by {
        if j == 0 { assert(t[j].name@ != e); }
        else if j == 1 { assert(t[j].name@ != e); }
        else if j == 2 { assert(t[j].name@[0] != e[0]); }
        else if j == 3 { assert(t[j].name@ != e); }
        else if j == 4 { assert(t[j].name@ != e); assert(t[j].aliases@[0]@ != e); }
        else if j == 5 { assert(t[j].name@[0] != e[0]); }
        else if j == 6 { assert(t[j].name@ != e); }
        else if j == 7 { assert(t[j].name@[0] != e[0]); }
        else if j == 8 { assert(t[j].name@ != e); assert(t[j].aliases@[0]@ != e); }
        else if j == 9 { assert(t[j].name@ != e); }
        else if j == 10 { assert(t[j].name@ != e); }
        else if j == 11 { assert(t[j].name@ != e); }
        else if j == 12 { assert(t[j].name@ != e); }
        else if j == 13 { assert(t[j].name@ != e); }
        else { assert(t[j].name@[0] != e[0]); }
    }
    lemma_first_match_at(t, e, 15);
}

/// `/expire` with an argument keeps the whole text after the command word
/// as the duration to set: a room's expiry is never lost to the parse.
pub proof fn lemma_expire_keeps_duration(d: Seq<char>)
    requires
        d.len() > 0,
    ensures
        parse_spec("/expire "@ + d) == Ok::<CommandView, Seq<char>>(
            CommandView::Expire { duration: Some(d) },
        ),
{
    reveal_strlit("/expire ");
    reveal_strlit("/expire");
    let input = "/expire "@ + d;
    let w = "/expire"@;
    assert(input =~= w + seq![' '] + d);
    assert forall|k: int| 0 <= k < w.len() implies w[k] != ' ' by {}
    crate::text::lemma_splitn_word(w, d, 3, ' ');
    lemma_splitn_len(d, 2, ' ');
    let parts = splitn_spec(input, 3, ' ');
    assert(parts[0] == w);
    assert(parts.len() >= 2);
    assert(parts[0].drop_first() =~= "expire"@) by {
        reveal_strlit("expire");
    }
    lemma_lookup_expire();
    assert(after_word(parts, input) =~= d);
    reveal_strlit("expire");
    assert(account_spec("expire"@, parts, input) is None) by {
        reveal_strlit("register");
        reveal_strlit("login");
        reveal_strlit("logout");
        reveal_strlit("reset");
        reveal_strlit("alias");
        reveal_strlit("whois");
        reveal_strlit("verify");
        reveal_strlit("unverify");
        reveal_strlit("trusted");
        reveal_strlit("passwd");
        reveal_strlit("expunge");
        assert("expire"@ != "register"@);
        assert("expire"@[0] != "logout"@[0]);
        assert("expire"@ != "login"@);
        assert("expire"@ != "reset"@);
        assert("expire"@ != "alias"@);
        assert("expire"@ != "whois"@);
        assert("expire"@ != "verify"@);
        assert("expire"@ != "unverify"@);
        assert("expire"@ != "trusted"@);
        assert("expire"@[0] != "passwd"@[0]);
        assert("expire"@ != "expunge"@);
    }
    assert(rooms_spec("expire"@, parts, input) == Some(
        Ok::<CommandView, Seq<char>>(CommandView::Expire { duration: Some(d) }),
    )) by {
        reveal_strlit("create");
        reveal_strlit("join");
        reveal_strlit("rooms");
        reveal_strlit("close");
        reveal_strlit("part");
        reveal_strlit("info");
        reveal_strlit("topic");
        reveal_strlit("unread");
        reveal_strlit("delete");
        assert("expire"@[0] != "create"@[0]);
        assert("expire"@ != "join"@);
        assert("expire"@ != "rooms"@);
        assert("expire"@ != "close"@);
        assert("expire"@ != "part"@);
        assert("expire"@ != "info"@);
        assert("expire"@ != "topic"@);
        assert("expire"@[0] != "unread"@[0]);
        assert("expire"@[0] != "delete"@[0]);
    }
}

/// Every registered name and every alias is recognised by the lookup, and
/// the entry found answers to it.
pub proof fn lemma_registry_names_recognised(i: int, name: Seq<char>)
    requires
        0 <= i < command_table().len(),
        answers_to(command_table()[i], name),
    ensures
        lookup_spec(name) is Some,
        answers_to(lookup_spec(name)->0, name),
{
    lemma_first_match_found(command_table(), name, i);
}

/// Whether one of the argument parsers handles the registry name `name`.
pub open spec fn dispatches(name: Seq<char>, parts: Seq<Seq<char>>, input: Seq<char>) -> bool {
    ||| account_spec(name, parts, input) is Some
    ||| rooms_spec(name, parts, input) is Some
    ||| members_spec(name, parts) is Some
    ||| other_spec(name, parts) is Some
}

/// Every registry entry has an argument parser: its name never falls
/// through to the unknown-command error, whatever the rest of the input.
pub proof fn lemma_registry_names_dispatch(i: int, parts: Seq<Seq<char>>, input: Seq<char>)
    requires
        0 <= i < command_table().len(),
    ensures
        dispatches(command_table()[i].name@, parts, input),
{
    let t = command_table();
    let n = t[i].name@;
    if i < 20 {
        if i < 10 {
            if i == 0 { assert(n == "register"@); } else if i == 1 { assert(n == "login"@); }
            else if i == 2 { assert(n == "logout"@); } else if i == 3 { assert(n == "reset"@); }
            else if i == 4 { assert(n == "alias"@); } else if i == 5 { assert(n == "passwd"@); }
            else if i == 6 { assert(n == "expunge"@); } else if i == 7 { assert(n == "create"@); }
            else if i == 8 { assert(n == "rooms"@); } else { assert(n == "join"@); }
        } else {
            if i == 10 { assert(n == "close"@); } else if i == 11 { assert(n == "part"@); }
            else if i == 12 { assert(n == "info"@); } else if i == 13 { assert(n == "topic"@); }
            else if i == 14 { assert(n == "unread"@); } else if i == 15 { assert(n == "expire"@); }
            else if i == 16 { assert(n == "delete"@); } else if i == 17 { assert(n == "visibility"@); }
            else if i == 18 { assert(n == "discover"@); } else { assert(n == "members"@); }
        }
    } else {
        if i < 30 {
            if i == 20 { assert(n == "whois"@); } else if i == 21 { assert(n == "invite"@); }
            else if i == 22 { assert(n == "kick"@); } else if i == 23 { assert(n == "promote"@); }
            else if i == 24 { assert(n == "demote"@); } else if i == 25 { assert(n == "admins"@); }
            else if i == 26 { assert(n == "invited"@); } else if i == 27 { assert(n == "uninvite"@); }
            else if i == 28 { assert(n == "ban"@); } else { assert(n == "unban"@); }
        } else {
            if i == 30 { assert(n == "banned"@); } else if i == 31 { assert(n == "invites"@); }
            else if i == 32 { assert(n == "accept"@); } else if i == 33 { assert(n == "decline"@); }
            else if i == 34 { assert(n == "rotate"@); } else if i == 35 { assert(n == "trusted"@); }
            else if i == 36 { assert(n == "unverify"@); } else if i == 37 { assert(n == "verify"@); }
            else if i == 38 { assert(n == "help"@); } else { assert(n == "quit"@); }
        }
    }
}

/// Inserting keeps every entry and adds the new one.
proof fn lemma_insert_by_name_contains(s: Seq<CommandSpec>, x: CommandSpec)
    ensures
        insert_by_name(s, x).contains(x),
        forall|j: int| 0 <= j < s.len() ==> insert_by_name(s, x).contains(#[trigger] s[j]),
    decreases s.len(),
{
    let r = insert_by_name(s, x);
    if s.len() == 0 {
        assert(r[0] == x);
    } else if lex_le(s[0].name@, x.name@) {
        let t = s.drop_first();
        lemma_insert_by_name_contains(t, x);
        let rt = insert_by_name(t, x);
        assert(r == seq![s[0]] + rt);
        let k = choose|k: int| 0 <= k < rt.len() && rt[k] == x;
        assert(r[k + 1] == x);
        assert forall|j: int| 0 <= j < s.len() implies r.contains(#[trigger] s[j]) by {
            if j == 0 {
                assert(r[0] == s[0]);
            } else {
                assert(t[j - 1] == s[j]);
                assert(rt.contains(t[j - 1]));
                let m = choose|m: int| 0 <= m < rt.len() && rt[m] == t[j - 1];
                assert(r[m + 1] == s[j]);
            }
        }
    } else {
        assert(r[0] == x);
        assert forall|j: int| 0 <= j < s.len() implies r.contains(#[trigger] s[j]) by {
            assert(r[j + 1] == s[j]);
        }
    }
}

/// Sorting keeps every entry.
proof fn lemma_sort_by_name_contains(s: Seq<CommandSpec>, x: CommandSpec)
    requires
        s.contains(x),
    ensures
        sort_by_name(s).contains(x),
    decreases s.len(),
{
    let p = s.drop_last();
    lemma_insert_by_name_contains(sort_by_name(p), s.last());
    if x != s.last() {
        let k = choose|k: int| 0 <= k < s.len() && s[k] == x;
        assert(p[k] == x);
        lemma_sort_by_name_contains(p, x);
        let m = choose|m: int| 0 <= m < sort_by_name(p).len() && sort_by_name(p)[m] == x;
        assert(sort_by_name(p)[m] == x);
    }
}

/// Every entry of a category is among the entries filtered for it.
proof fn lemma_in_category_contains(t: Seq<CommandSpec>, i: int)
    requires
        0 <= i < t.len(),
    ensures
        in_category(t, t[i].category).contains(t[i]),
    decreases t.len(),
{
    let c = t[i].category;
    if i == t.len() - 1 {
        let f = in_category(t, c);
        assert(f[f.len() - 1] == t[i]);
    } else {
        assert(t.drop_last()[i] == t[i]);
        lemma_in_category_contains(t.drop_last(), i);
        let f = in_category(t.drop_last(), c);
        let m = choose|m: int| 0 <= m < f.len() && f[m] == t[i];
        if t.last().category == c {
            assert(in_category(t, c)[m] == t[i]);
        }
    }
}

/// A category with commands is kept by the filter of non-empty categories.
proof fn lemma_nonempty_categories_contains(cats: Seq<CommandCategory>, k: int)
    requires
        0 <= k < cats.len(),
        category_commands(cats[k]).len() > 0,
    ensures
        nonempty_categories(cats).contains(cats[k]),
    decreases cats.len(),
{
    let r = nonempty_categories(cats);
    if k == cats.len() - 1 {
        assert(r[r.len() - 1] == cats[k]);
    } else {
        assert(cats.drop_last()[k] == cats[k]);
        lemma_nonempty_categories_contains(cats.drop_last(), k);
        let f = nonempty_categories(cats.drop_last());
        let m = choose|m: int| 0 <= m < f.len() && f[m] == cats[k];
        if category_commands(cats.last()).len() > 0 {
            assert(r[m] == cats[k]);
        }
    }
}

/// Every category kept by the filter has commands.
proof fn lemma_nonempty_categories_have_commands(cats: Seq<CommandCategory>)
    ensures
        forall|k: int|
            0 <= k < nonempty_categories(cats).len() ==> category_commands(
                #[trigger] nonempty_categories(cats)[k],
            ).len() > 0,
    decreases cats.len(),
{
    if cats.len() > 0 {
        lemma_nonempty_categories_have_commands(cats.drop_last());
        let f = nonempty_categories(cats.drop_last());
        assert forall|k: int| 0 <= k < nonempty_categories(cats).len() implies category_commands(
            #[trigger] nonempty_categories(cats)[k],
        ).len() > 0 by {
            if k < f.len() {
                assert(nonempty_categories(cats)[k] == f[k]);
            }
        }
    }
}

/// Every category shown in the help text lists at least one command.
pub proof fn lemma_help_categories_non_empty()
    ensures
        forall|k: int|
            0 <= k < help_category_order().len() ==> category_commands(
                #[trigger] help_category_order()[k],
            ).len() > 0,
{
    lemma_nonempty_categories_have_commands(category_order());
}

/// Every registered command is listed in the help text, under its category.
pub proof fn lemma_help_lists_every_command(i: int)
    requires
        0 <= i < command_table().len(),
    ensures
        help_category_order().contains(command_table()[i].category),
        category_commands(command_table()[i].category).contains(command_table()[i]),
{
    let t = command_table();
    let c = t[i].category;
    lemma_in_category_contains(t, i);
    lemma_sort_by_name_contains(in_category(t, c), t[i]);
    let k: int = match c {
        CommandCategory::Account => 0,
        CommandCategory::Rooms => 1,
        CommandCategory::Members => 2,
        CommandCategory::Invites => 3,
        CommandCategory::Security => 4,
        CommandCategory::General => 5,
    };
    assert(category_order()[k] == c);
    lemma_nonempty_categories_contains(category_order(), k);
}

} // verus!

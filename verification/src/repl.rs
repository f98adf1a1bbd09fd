//! The line-oriented client: what a line typed at its prompt asks for, the
//! prompt itself, and the help it prints.

use vstd::prelude::*;

use crate::command::{member_list, member_list_spec, strings_view};
use crate::error::{error_message_spec, Error};
use crate::operations::{plaintext_text, spec_utf8_lossy, DecryptedMessage};
use crate::text::{decimal_spec, push_all, u64_to_chars};
use crate::tui::commands::{join_names, joined_spec};
use crate::text::{chars_eq_str, chars_of, lemma_splitn_len, owned, push_str, splitn, splitn_spec, string_from_chars, trim, trim_spec, views};

verus! {

/// A line typed at the prompt.
pub enum ReplCommand {
    Help,
    Register { username: String, password: String },
    Login { username: String, password: String },
    Me,
    Keygen,
    Create { name: String, members: Vec<String> },
    Invite { group_id: String, members: Vec<String> },
    Groups,
    Join,
    Send { group_id: String, message: String },
    Messages { group_id: String },
    Quit,
    /// A known command without its arguments: the usage line to print.
    Usage(String),
    /// A line that names no command.
    Unknown,
}

/// A line typed at the prompt, with its text as characters.
pub enum ReplView {
    Help,
    Register { username: Seq<char>, password: Seq<char> },
    Login { username: Seq<char>, password: Seq<char> },
    Me,
    Keygen,
    Create { name: Seq<char>, members: Seq<Seq<char>> },
    Invite { group_id: Seq<char>, members: Seq<Seq<char>> },
    Groups,
    Join,
    Send { group_id: Seq<char>, message: Seq<char> },
    Messages { group_id: Seq<char> },
    Quit,
    Usage(Seq<char>),
    Unknown,
}

impl View for ReplCommand {
    type V = ReplView;

    open spec fn view(&self) -> ReplView {
        match self {
            ReplCommand::Help => ReplView::Help,
            ReplCommand::Register { username, password } => ReplView::Register {
                username: username@,
                password: password@,
            },
            ReplCommand::Login { username, password } => ReplView::Login {
                username: username@,
                password: password@,
            },
            ReplCommand::Me => ReplView::Me,
            ReplCommand::Keygen => ReplView::Keygen,
            ReplCommand::Create { name, members } => ReplView::Create {
                name: name@,
                members: strings_view(members@),
            },
            ReplCommand::Invite { group_id, members } => ReplView::Invite {
                group_id: group_id@,
                members: strings_view(members@),
            },
            ReplCommand::Groups => ReplView::Groups,
            ReplCommand::Join => ReplView::Join,
            ReplCommand::Send { group_id, message } => ReplView::Send {
                group_id: group_id@,
                message: message@,
            },
            ReplCommand::Messages { group_id } => ReplView::Messages { group_id: group_id@ },
            ReplCommand::Quit => ReplView::Quit,
            ReplCommand::Usage(u) => ReplView::Usage(u@),
            ReplCommand::Unknown => ReplView::Unknown,
        }
    }
}

/// What the words of a line (split at its first two spaces) ask for.
pub open spec fn repl_words_spec(parts: Seq<Seq<char>>) -> ReplView {
    let cmd = parts[0];
    if cmd == "/help"@ {
        ReplView::Help
    } else if cmd == "/register"@ {
        if parts.len() < 3 {
            ReplView::Usage("Usage: /register <username> <password>"@)
        } else {
            ReplView::Register { username: parts[1], password: parts[2] }
        }
    } else if cmd == "/login"@ {
        if parts.len() < 3 {
            ReplView::Usage("Usage: /login <username> <password>"@)
        } else {
            ReplView::Login { username: parts[1], password: parts[2] }
        }
    } else if cmd == "/me"@ {
        ReplView::Me
    } else if cmd == "/keygen"@ {
        ReplView::Keygen
    } else if cmd == "/create"@ {
        if parts.len() < 3 {
            ReplView::Usage("Usage: /create <group_name> <member1,member2,...>"@)
        } else {
            ReplView::Create { name: parts[1], members: member_list_spec(parts[2]) }
        }
    } else if cmd == "/invite"@ {
        if parts.len() < 3 {
            ReplView::Usage("Usage: /invite <group_id> <member1,member2,...>"@)
        } else {
            ReplView::Invite { group_id: parts[1], members: member_list_spec(parts[2]) }
        }
    } else if cmd == "/groups"@ {
        ReplView::Groups
    } else if cmd == "/join"@ {
        ReplView::Join
    } else if cmd == "/send"@ {
        if parts.len() < 3 {
            ReplView::Usage("Usage: /send <group_id> <message>"@)
        } else {
            ReplView::Send { group_id: parts[1], message: parts[2] }
        }
    } else if cmd == "/messages"@ {
        if parts.len() < 2 {
            ReplView::Usage("Usage: /messages <group_id>"@)
        } else {
            ReplView::Messages { group_id: parts[1] }
        }
    } else if cmd == "/quit"@ || cmd == "/exit"@ {
        ReplView::Quit
    } else {
        ReplView::Unknown
    }
}

/// What a line asks for; the line is read with surrounding whitespace
/// removed, and an empty line asks for nothing.
pub open spec fn repl_spec(line: Seq<char>) -> Option<ReplView> {
    let t = trim_spec(line);
    if t.len() == 0 {
        None
    } else {
        Some(repl_words_spec(splitn_spec(t, 3, ' ')))
    }
}

fn text_of(c: &Vec<char>) -> (s: String)
    ensures
        s@ == c@,
{
    string_from_chars(c.as_slice())
}

fn usage(msg: &str) -> (r: ReplCommand)
    ensures
        r@ == ReplView::Usage(msg@),
{
    ReplCommand::Usage(owned(msg))
}

fn repl_words(parts: &Vec<Vec<char>>) -> (r: ReplCommand)
    requires
        1 <= parts@.len() <= 3,
    ensures
        r@ == repl_words_spec(views(parts@)),
{
    let ghost pv = views(parts@);
    assert(forall|k: int| 0 <= k < parts@.len() ==> pv[k] == (#[trigger] parts@[k])@);
    let cmd = &parts[0];
    let n = parts.len();
    if chars_eq_str(cmd.as_slice(), "/help") {
        return ReplCommand::Help;
    }
    if chars_eq_str(cmd.as_slice(), "/register") {
        if n < 3 {
            return usage("Usage: /register <username> <password>");
        }
        return ReplCommand::Register { username: text_of(&parts[1]), password: text_of(&parts[2]) };
    }
    if chars_eq_str(cmd.as_slice(), "/login") {
        if n < 3 {
            return usage("Usage: /login <username> <password>");
        }
        return ReplCommand::Login { username: text_of(&parts[1]), password: text_of(&parts[2]) };
    }
    if chars_eq_str(cmd.as_slice(), "/me") {
        return ReplCommand::Me;
    }
    if chars_eq_str(cmd.as_slice(), "/keygen") {
        return ReplCommand::Keygen;
    }
    if chars_eq_str(cmd.as_slice(), "/create") {
        if n < 3 {
            return usage("Usage: /create <group_name> <member1,member2,...>");
        }
        return ReplCommand::Create { name: text_of(&parts[1]), members: member_list(&parts[2]) };
    }
    if chars_eq_str(cmd.as_slice(), "/invite") {
        if n < 3 {
            return usage("Usage: /invite <group_id> <member1,member2,...>");
        }
        return ReplCommand::Invite { group_id: text_of(&parts[1]), members: member_list(&parts[2]) };
    }
    if chars_eq_str(cmd.as_slice(), "/groups") {
        return ReplCommand::Groups;
    }
    if chars_eq_str(cmd.as_slice(), "/join") {
        return ReplCommand::Join;
    }
    if chars_eq_str(cmd.as_slice(), "/send") {
        if n < 3 {
            return usage("Usage: /send <group_id> <message>");
        }
        return ReplCommand::Send { group_id: text_of(&parts[1]), message: text_of(&parts[2]) };
    }
    if chars_eq_str(cmd.as_slice(), "/messages") {
        if n < 2 {
            return usage("Usage: /messages <group_id>");
        }
        return ReplCommand::Messages { group_id: text_of(&parts[1]) };
    }
    if chars_eq_str(cmd.as_slice(), "/quit") || chars_eq_str(cmd.as_slice(), "/exit") {
        return ReplCommand::Quit;
    }
    ReplCommand::Unknown
}

/// Reads a line typed at the prompt; `None` for a blank line.
pub fn parse_repl_line(line: &str) -> (r: Option<ReplCommand>)
    ensures
        match (r, repl_spec(line@)) {
            (Some(c), Some(v)) => c@ == v,
            (None, None) => true,
            _ => false,
        },
{
    let chars = chars_of(line);
    let t = trim(chars.as_slice());
    if t.len() == 0 {
        return None;
    }
    let parts = splitn(t.as_slice(), 3, ' ');
    proof {
        lemma_splitn_len(t@, 3, ' ');
    }
    Some(repl_words(&parts))
}

/// The prompt: the user name when logged in, otherwise the program name.
pub fn repl_prompt(username: &Option<String>) -> (r: String)
    ensures
        r@ == match username {
            Some(u) => u@ + "> "@,
            None => "conclave> "@,
        },
{
    match username {
        Some(u) => {
            let mut out = chars_of(u.as_str());
            push_str(&mut out, "> ");
            string_from_chars(out.as_slice())
        },
        None => owned("conclave> "),
    }
}

/// The lines of the help the prompt prints.
pub open spec fn repl_help_spec() -> Seq<Seq<char>> {
    seq![
        "Commands:"@,
        "  /register <username> <password>  - Register a new account"@,
        "  /login <username> <password>     - Login to the server"@,
        "  /me                              - Show current user info"@,
        "  /keygen                          - Generate and upload a key package"@,
        "  /create <name> <members...>      - Create a group (comma-separated members)"@,
        "  /invite <group_id> <members...>  - Invite members to an existing group"@,
        "  /groups                          - List your groups"@,
        "  /join                             - Accept pending group invitations"@,
        "  /send <group_id> <message>       - Send a message to a group"@,
        "  /messages <group_id>             - Fetch messages from a group"@,
        "  /quit                            - Exit"@,
    ]
}

/// The lines of the help the prompt prints, in order.
pub fn repl_help_lines() -> (r: Vec<&'static str>)
    ensures
        r@.map_values(|s: &str| s@) == repl_help_spec(),
{
    let r: Vec<&'static str> = vec![
        "Commands:",
        "  /register <username> <password>  - Register a new account",
        "  /login <username> <password>     - Login to the server",
        "  /me                              - Show current user info",
        "  /keygen                          - Generate and upload a key package",
        "  /create <name> <members...>      - Create a group (comma-separated members)",
        "  /invite <group_id> <members...>  - Invite members to an existing group",
        "  /groups                          - List your groups",
        "  /join                             - Accept pending group invitations",
        "  /send <group_id> <message>       - Send a message to a group",
        "  /messages <group_id>             - Fetch messages from a group",
        "  /quit                            - Exit",
    ];
    assert(r@.map_values(|s: &str| s@) =~= repl_help_spec());
    r
}

/// The members named in a comma-separated list, trimmed, without empty
/// names.
pub open spec fn member_names_spec(list: Seq<char>) -> Seq<Seq<char>> {
    member_list_spec(list).filter(|n: Seq<char>| n.len() > 0)
}

/// The members named in a comma-separated list, trimmed, without empty
/// names.
pub fn member_names(list: &str) -> (r: Vec<String>)
    ensures
        strings_view(r@) == member_names_spec(list@),
{
    let chars = chars_of(list);
    let all = member_list(&chars);
    let ghost av = strings_view(all@);
    let mut out: Vec<String> = Vec::new();
    let mut i: usize = 0;
    proof {
        assert(av.take(0).filter(|n: Seq<char>| n.len() > 0) =~= Seq::<Seq<char>>::empty());
    }
    while i < all.len()
        invariant
            i <= all@.len(),
            av == strings_view(all@),
            av == member_list_spec(list@),
            strings_view(out@) == av.take(i as int).filter(|n: Seq<char>| n.len() > 0),
        decreases all@.len() - i,
    {
        proof {
            assert(av.take(i + 1).drop_last() =~= av.take(i as int));
            av.take(i as int).lemma_filter_push(av[i as int], |n: Seq<char>| n.len() > 0);
            assert(av.take(i as int).push(av[i as int]) =~= av.take(i + 1));
        }
        if all[i].as_str().is_empty() {
        } else {
            let ghost before = strings_view(out@);
            out.push(owned(all[i].as_str()));
            assert(strings_view(out@) =~= before.push(av[i as int]));
        }
        i = i + 1;
    }
    proof {
        assert(av.take(av.len() as int) =~= av);
    }
    out
}

/// The members named in a comma-separated invitation list, trimmed and
/// without empty names; refused when no name remains.
pub fn member_names_of(list: &str) -> (r: Result<Vec<String>, Error>)
    ensures
        match r {
            Ok(v) => strings_view(v@) == member_names_spec(list@) && v@.len() > 0,
            Err(e) => member_names_spec(list@).len() == 0 && e is Other && error_message_spec(e)
                == "no valid member names provided"@,
        },
{
    let names = member_names(list);
    if names.len() == 0 {
        return Err(Error::Other(owned("no valid member names provided")));
    }
    Ok(names)
}

/// What a request made for a line reported, to be printed.
pub enum ReplReply {
    Registered { user_id: u64 },
    LoggedIn { username: String, user_id: u64 },
    Created { name: String, group_id: String },
    Invited { group_id: String, names: Vec<String> },
    NoNewMembers,
    JoinedGroup { name: String, group_id: String },
    NoInvitations,
    Sent { sequence_num: u64 },
    NoGroups,
    NoMessages,
    KeyUploaded,
}

/// The line printed for a reply.
pub open spec fn reply_line_spec(r: ReplReply) -> Seq<char> {
    match r {
        ReplReply::Registered { user_id } => "Registered as user ID "@ + decimal_spec(user_id as nat),
        ReplReply::LoggedIn { username, user_id } => "Logged in as "@ + username@ + " (user ID "@
            + decimal_spec(user_id as nat) + ")"@,
        ReplReply::Created { name, group_id } => "Group '"@ + name@ + "' created (ID: "@
            + group_id@ + ")"@,
        ReplReply::Invited { group_id, names } => "Invited "@ + joined_spec(strings_view(names@))
            + " to group "@ + group_id@,
        ReplReply::NoNewMembers => "No new members to invite."@,
        ReplReply::JoinedGroup { name, group_id } => "Joined group '"@ + name@ + "' (ID: "@
            + group_id@ + ")"@,
        ReplReply::NoInvitations => "No pending invitations."@,
        ReplReply::Sent { sequence_num } => "Message sent (seq: "@ + decimal_spec(
            sequence_num as nat,
        ) + ")"@,
        ReplReply::NoGroups => "No groups."@,
        ReplReply::NoMessages => "No messages."@,
        ReplReply::KeyUploaded => "Key package generated and uploaded."@,
    }
}

/// The line printed for a reply.
pub fn reply_line(r: &ReplReply) -> (s: String)
    ensures
        s@ == reply_line_spec(*r),
{
    let mut out: Vec<char> = Vec::new();
    match r {
        ReplReply::Registered { user_id } => {
            push_str(&mut out, "Registered as user ID ");
            let d = u64_to_chars(*user_id);
            push_all(&mut out, d.as_slice());
        },
        ReplReply::LoggedIn { username, user_id } => {
            push_str(&mut out, "Logged in as ");
            push_str(&mut out, username.as_str());
            push_str(&mut out, " (user ID ");
            let d = u64_to_chars(*user_id);
            push_all(&mut out, d.as_slice());
            push_str(&mut out, ")");
        },
        ReplReply::Created { name, group_id } => {
            push_str(&mut out, "Group '");
            push_str(&mut out, name.as_str());
            push_str(&mut out, "' created (ID: ");
            push_str(&mut out, group_id.as_str());
            push_str(&mut out, ")");
        },
        ReplReply::Invited { group_id, names } => {
            push_str(&mut out, "Invited ");
            let list = join_names(names.as_slice());
            push_all(&mut out, list.as_slice());
            push_str(&mut out, " to group ");
            push_str(&mut out, group_id.as_str());
        },
        ReplReply::NoNewMembers => push_str(&mut out, "No new members to invite."),
        ReplReply::JoinedGroup { name, group_id } => {
            push_str(&mut out, "Joined group '");
            push_str(&mut out, name.as_str());
            push_str(&mut out, "' (ID: ");
            push_str(&mut out, group_id.as_str());
            push_str(&mut out, ")");
        },
        ReplReply::NoInvitations => push_str(&mut out, "No pending invitations."),
        ReplReply::Sent { sequence_num } => {
            push_str(&mut out, "Message sent (seq: ");
            let d = u64_to_chars(*sequence_num);
            push_all(&mut out, d.as_slice());
            push_str(&mut out, ")");
        },
        ReplReply::NoGroups => push_str(&mut out, "No groups."),
        ReplReply::NoMessages => push_str(&mut out, "No messages."),
        ReplReply::KeyUploaded => push_str(&mut out, "Key package generated and uploaded."),
    }
    let s = string_from_chars(out.as_slice());
    assert(s@ =~= reply_line_spec(*r));
    s
}

/// The line of a group in the list of groups: its ID, its name and its
/// members' user names.
pub fn group_line(group_id: &str, name: &str, members: &[String]) -> (s: String)
    ensures
        s@ == "  "@ + group_id@ + " - "@ + name@ + " [members: "@ + joined_spec(
            strings_view(members@),
        ) + "]"@,
{
    let list = join_names(members);
    let mut out: Vec<char> = Vec::new();
    push_str(&mut out, "  ");
    push_str(&mut out, group_id);
    push_str(&mut out, " - ");
    push_str(&mut out, name);
    push_str(&mut out, " [members: ");
    push_all(&mut out, list.as_slice());
    push_str(&mut out, "]");
    string_from_chars(out.as_slice())
}

/// The line of a decrypted message: its sequence number, sender and text.
pub open spec fn message_line_spec(sequence_num: u64, sender: Seq<char>, plaintext: Seq<u8>) -> Seq<
    char,
> {
    "  ["@ + decimal_spec(sequence_num as nat) + "] "@ + sender + ": "@ + spec_utf8_lossy(plaintext)
}

/// The line of a message that could not be decrypted.
pub open spec fn failure_line_spec(sequence_num: u64, sender: Seq<char>, e: Error) -> Seq<char> {
    "  ["@ + decimal_spec(sequence_num as nat) + "] "@ + sender + ": <decryption failed: "@
        + error_message_spec(e) + ">"@
}

/// The line of a decrypted message.
pub fn message_line(sequence_num: u64, sender: &str, plaintext: &[u8]) -> (l: String)
    ensures
        l@ == message_line_spec(sequence_num, sender@, plaintext@),
{
    let mut out: Vec<char> = Vec::new();
    push_str(&mut out, "  [");
    let d = u64_to_chars(sequence_num);
    push_all(&mut out, d.as_slice());
    push_str(&mut out, "] ");
    push_str(&mut out, sender);
    push_str(&mut out, ": ");
    let text = plaintext_text(plaintext);
    push_str(&mut out, text.as_str());
    string_from_chars(out.as_slice())
}

/// The line printed for a fetched message, given what decrypting it gave:
/// the sender's text for an application message, an error line (for the
/// error stream, `true`) when decryption failed, and nothing for commits
/// and other MLS messages.
pub fn fetched_line(sequence_num: u64, sender: &str, outcome: &Result<DecryptedMessage, Error>) -> (r:
    Option<(bool, String)>)
    ensures
        match *outcome {
            Ok(DecryptedMessage::Application(p)) => r matches Some((b, l)) && !b && l@
                == message_line_spec(sequence_num, sender@, p@),
            Ok(_) => r is None,
            Err(e) => r matches Some((b, l)) && b && l@ == failure_line_spec(sequence_num, sender@, e),
        },
{
    match outcome {
        Ok(DecryptedMessage::Application(p)) => {
            let line = message_line(sequence_num, sender, p.as_slice());
            Some((false, line))
        },
        Ok(_) => None,
        Err(e) => {
            let mut out: Vec<char> = Vec::new();
            push_str(&mut out, "  [");
            let d = u64_to_chars(sequence_num);
            push_all(&mut out, d.as_slice());
            push_str(&mut out, "] ");
            push_str(&mut out, sender);
            push_str(&mut out, ": <decryption failed: ");
            let m = e.message();
            push_str(&mut out, m.as_str());
            push_str(&mut out, ">");
            Some((true, string_from_chars(out.as_slice())))
        },
    }
}

} // verus!

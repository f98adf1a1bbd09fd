//! Layout of the interactive client's screen: the status line, the input
//! prompt, which messages fit, and the colour of each sender.

use vstd::prelude::*;

use crate::cli::notification::byte_len;
use crate::cli::render::{nick_palette, NickColor};
use crate::text::{decimal_spec, owned, push_all, push_str, string_from_chars, u64_to_chars};
use crate::tui::state::{AppState, ConnectionStatus};

verus! {

/// The hash of a user name: over its UTF-8 bytes, each step multiplying by
/// 31 and adding the byte, wrapping around at the width of `usize`.
pub open spec fn name_hash(bytes: Seq<u8>) -> usize
    decreases bytes.len(),
{
    if bytes.len() == 0 {
        0
    } else {
        vstd::wrapping::usize_specs::wrapping_add(
            vstd::wrapping::usize_specs::wrapping_mul(name_hash(bytes.drop_last()), 31),
            bytes.last() as usize,
        )
    }
}

/// Assigns a consistent colour to a sender by the hash of their name.
pub fn username_color(username: &str) -> (r: NickColor)
    ensures
        r == nick_palette(name_hash(vstd::utf8::encode_utf8(username@)) as int % 12),
{
    let bytes = username.as_bytes();
    let mut hash: usize = 0;
    let mut i: usize = 0;
    while i < bytes.len()
        invariant
            i <= bytes@.len(),
            hash == name_hash(bytes@.take(i as int)),
        decreases bytes@.len() - i,
    {
        proof {
            assert(bytes@.take(i + 1).drop_last() =~= bytes@.take(i as int));
        }
        hash = hash.wrapping_mul(31).wrapping_add(bytes[i] as usize);
        i = i + 1;
    }
    proof {
        assert(bytes@.take(bytes@.len() as int) =~= bytes@);
    }
    let colors: [NickColor; 12] = [
        NickColor::Red,
        NickColor::Green,
        NickColor::Yellow,
        NickColor::Blue,
        NickColor::Magenta,
        NickColor::Cyan,
        NickColor::DarkRed,
        NickColor::DarkGreen,
        NickColor::DarkYellow,
        NickColor::DarkBlue,
        NickColor::DarkMagenta,
        NickColor::DarkCyan,
    ];
    colors[hash % 12]
}

/// The text of the status line: connection, active room with its number of
/// members, and the user name.
pub open spec fn status_line_spec(s: AppState) -> Seq<char> {
    let icon = match s.connection_status {
        ConnectionStatus::Connected => "connected"@,
        ConnectionStatus::Connecting => "connecting..."@,
        ConnectionStatus::Disconnected => "disconnected"@,
    };
    let room = match s.active_room {
        Some(g) => if s.rooms@.contains_key(g) {
            "#"@ + s.rooms@[g].name@ + " ("@ + decimal_spec(s.rooms@[g].members@.len()) + ")"@
        } else {
            "no room"@
        },
        None => "no room"@,
    };
    let user = match s.username {
        Some(u) => u@,
        None => "not logged in"@,
    };
    " ["@ + icon + "] "@ + room + " | "@ + user + " "@
}

/// The status line and the number of spaces that pad it to the terminal's
/// width (none where it is already as wide).
pub fn status_line(state: &AppState) -> (r: (String, usize))
    ensures
        r.0@ == status_line_spec(*state),
        r.1 == (if byte_len(status_line_spec(*state)) >= state.terminal_cols {
            0
        } else {
            state.terminal_cols - byte_len(status_line_spec(*state))
        }),
{
    let mut out: Vec<char> = Vec::new();
    push_str(&mut out, " [");
    match state.connection_status {
        ConnectionStatus::Connected => push_str(&mut out, "connected"),
        ConnectionStatus::Connecting => push_str(&mut out, "connecting..."),
        ConnectionStatus::Disconnected => push_str(&mut out, "disconnected"),
    }
    push_str(&mut out, "] ");
    match state.active_room_info() {
        Some(room) => {
            push_str(&mut out, "#");
            push_str(&mut out, room.name.as_str());
            push_str(&mut out, " (");
            let count = u64_to_chars(room.members.len() as u64);
            push_all(&mut out, count.as_slice());
            push_str(&mut out, ")");
        },
        None => push_str(&mut out, "no room"),
    }
    push_str(&mut out, " | ");
    match &state.username {
        Some(u) => push_str(&mut out, u.as_str()),
        None => push_str(&mut out, "not logged in"),
    }
    push_str(&mut out, " ");
    let text = string_from_chars(out.as_slice());
    assert(text@ =~= status_line_spec(*state));
    let used = text.as_str().len();
    let cols = state.terminal_cols as usize;
    let padding = if used >= cols {
        0
    } else {
        cols - used
    };
    (text, padding)
}

/// The prompt before the input: `[#room] ` in a room, `> ` otherwise.
pub open spec fn input_prefix_spec(s: AppState) -> Seq<char> {
    match s.active_room {
        Some(g) => if s.rooms@.contains_key(g) {
            "[#"@ + s.rooms@[g].name@ + "] "@
        } else {
            "> "@
        },
        None => "> "@,
    }
}

/// The prompt before the input line.
pub fn input_prefix(state: &AppState) -> (r: String)
    ensures
        r@ == input_prefix_spec(*state),
{
    match state.active_room_info() {
        Some(room) => {
            let mut out: Vec<char> = Vec::new();
            push_str(&mut out, "[#");
            push_str(&mut out, room.name.as_str());
            push_str(&mut out, "] ");
            string_from_chars(out.as_slice())
        },
        None => owned("> "),
    }
}

/// Which of `total` messages are shown in `rows` rows, scrolled back by
/// `scroll` messages: the range from `start` up to `end`, each bound
/// saturating at zero.
pub fn visible_range(total: usize, rows: usize, scroll: usize) -> (r: (usize, usize))
    ensures
        r.0 == (if rows + scroll >= total { 0 } else { total - (rows + scroll) }),
        r.1 == (if scroll >= total { 0 } else { total - scroll }),
        r.0 <= r.1 <= total,
{
    let end = total.saturating_sub(scroll);
    let start = if rows >= total || scroll >= total - rows {
        0
    } else {
        total - rows - scroll
    };
    (start, end)
}

} // verus!

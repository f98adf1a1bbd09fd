//! Layout of the terminal screen: how wide message prefixes are, how many
//! rows a message or the input area takes, which messages fit, where the
//! cursor goes, and which indicator and colour a sender gets. Writing to the
//! terminal is left to the caller.

use std::collections::HashMap;

use vstd::prelude::*;

use crate::cli::input::InputLine;
use crate::cli::state::{prompt_label_spec, AppState, InputMode};
use crate::cli::notification::byte_len;
use crate::state::{
    resolve_sender_name, room_display_name_spec, room_trust_level, room_trust_spec,
    sender_name_spec, ConnectionStatus, DisplayMessage, RoomMember, RoomTrustLevel,
    VerificationStatus, INDICATOR_COLOR_RISKY, INDICATOR_COLOR_UNVERIFIED,
    INDICATOR_COLOR_VERIFIED,
};
use crate::text::{chars_of, decimal_spec, owned, push_all, push_str, split, split_spec, string_from_chars, u64_to_chars, views};
use crate::{sanitize_control_chars, sanitize_spec};

verus! {

broadcast use vstd::std_specs::hash::group_hash_axioms;

/// Removes control characters that could drive the terminal.
pub fn sanitize_for_terminal(input: &str) -> (r: String)
    ensures
        r@ == sanitize_spec(input@),
{
    sanitize_control_chars(input)
}

/// Display width of a text, approximated by its number of characters.
pub fn display_width(text: &str) -> (r: usize)
    ensures
        r == text@.len(),
{
    let c = chars_of(text);
    c.len()
}

/// Rows needed to show a line of `width` columns on a terminal `cols` wide:
/// the width divided by the columns, rounded up, and at least one row. The
/// count is kept as a `u16`, as terminal coordinates are.
pub open spec fn rows_for_width_spec(width: int, cols: int) -> u16 {
    if cols == 0 || width == 0 {
        1
    } else {
        ((width + cols - 1) / cols) as u16
    }
}

/// Number of terminal rows needed to display a line of given width.
pub fn rows_for_width(width: usize, cols: usize) -> (r: u16)
    requires
        cols == 0 || width == 0 || width + cols <= usize::MAX,
    ensures
        r == rows_for_width_spec(width as int, cols as int),
{
    if cols == 0 || width == 0 {
        return 1;
    }
    ((width + cols - 1) / cols) as u16
}

/// A line that needs `rows_for_width` rows fits in them, and in no fewer.
pub proof fn lemma_rows_fit(width: int, cols: int)
    requires
        width > 0,
        cols > 0,
        (width + cols - 1) / cols <= u16::MAX,
    ensures
        (rows_for_width_spec(width, cols) - 1) * cols < width <= rows_for_width_spec(width, cols)
            * cols,
{
    let q = (width + cols - 1) / cols;
    assert(rows_for_width_spec(width, cols) == q);
    assert(q * cols <= width + cols - 1 < (q + 1) * cols) by (nonlinear_arith)
        requires
            q == (width + cols - 1) / cols,
            cols > 0,
            width > 0,
    ;
    assert((q - 1) * cols == q * cols - cols) by (nonlinear_arith);
    assert((q + 1) * cols == q * cols + cols) by (nonlinear_arith);
}

/// The verification indicator shown before a sender: `[!] ` for a changed
/// key, `[?] ` for an unknown or unverified one, `[✓] ` for a verified one
/// when verified indicators are shown, and nothing otherwise.
pub open spec fn indicator_spec(
    sender_id: Option<u128>,
    status: Map<u128, VerificationStatus>,
    show_verified: bool,
) -> Seq<char> {
    match sender_id {
        Some(id) => if status.contains_key(id) {
            match status[id] {
                VerificationStatus::Changed => "[!] "@,
                VerificationStatus::Unknown => "[?] "@,
                VerificationStatus::Unverified => "[?] "@,
                VerificationStatus::Verified => if show_verified {
                    "[\u{2713}] "@
                } else {
                    ""@
                },
            }
        } else {
            ""@
        },
        None => ""@,
    }
}

/// Return the verification indicator prefix for a user.
pub fn verification_indicator(
    sender_id: Option<u128>,
    verification_status: &HashMap<u128, VerificationStatus>,
    show_verified: bool,
) -> (r: &'static str)
    ensures
        r@ == indicator_spec(sender_id, verification_status@, show_verified),
{
    match sender_id {
        Some(id) => match verification_status.get(&id) {
            Some(VerificationStatus::Changed) => "[!] ",
            Some(VerificationStatus::Unknown) => "[?] ",
            Some(VerificationStatus::Unverified) => "[?] ",
            Some(VerificationStatus::Verified) => if show_verified {
                "[\u{2713}] "
            } else {
                ""
            },
            None => "",
        },
        None => "",
    }
}

/// The colour of the verification indicator: the risky colour for a changed
/// key, the unverified colour for an unknown or unverified one, the verified
/// colour for a verified one when verified indicators are shown, and none
/// otherwise.
pub open spec fn indicator_color_spec(
    sender_id: Option<u128>,
    status: Map<u128, VerificationStatus>,
    show_verified: bool,
) -> Option<(u8, u8, u8)> {
    match sender_id {
        Some(id) => if status.contains_key(id) {
            match status[id] {
                VerificationStatus::Changed => Some(INDICATOR_COLOR_RISKY),
                VerificationStatus::Unknown => Some(INDICATOR_COLOR_UNVERIFIED),
                VerificationStatus::Unverified => Some(INDICATOR_COLOR_UNVERIFIED),
                VerificationStatus::Verified => if show_verified {
                    Some(INDICATOR_COLOR_VERIFIED)
                } else {
                    None
                },
            }
        } else {
            None
        },
        None => None,
    }
}

/// Return the colour, as red, green and blue, for a verification indicator.
pub fn verification_color(
    sender_id: Option<u128>,
    verification_status: &HashMap<u128, VerificationStatus>,
    show_verified: bool,
) -> (r: Option<(u8, u8, u8)>)
    ensures
        r == indicator_color_spec(sender_id, verification_status@, show_verified),
{
    match sender_id {
        Some(id) => match verification_status.get(&id) {
            Some(VerificationStatus::Changed) => Some(INDICATOR_COLOR_RISKY),
            Some(VerificationStatus::Unknown) => Some(INDICATOR_COLOR_UNVERIFIED),
            Some(VerificationStatus::Unverified) => Some(INDICATOR_COLOR_UNVERIFIED),
            Some(VerificationStatus::Verified) => if show_verified {
                Some(INDICATOR_COLOR_VERIFIED)
            } else {
                None
            },
            None => None,
        },
        None => None,
    }
}

/// An indicator is shown exactly when it has a colour.
pub proof fn lemma_indicator_has_color(
    sender_id: Option<u128>,
    status: Map<u128, VerificationStatus>,
    show_verified: bool,
)
    ensures
        (indicator_spec(sender_id, status, show_verified).len() == 0) == (indicator_color_spec(
            sender_id,
            status,
            show_verified,
        ) is None),
{
    reveal_strlit("[!] ");
    reveal_strlit("[?] ");
    reveal_strlit("[\u{2713}] ");
    reveal_strlit("");
}

/// Width of the prefix before a message's text: `[HH:MM] ` (8 columns),
/// then `*** ` for a system message, or the indicator and `<sender> ` for a
/// user's message.
pub open spec fn prefix_width_spec(
    msg: DisplayMessage,
    members: Seq<RoomMember>,
    status: Map<u128, VerificationStatus>,
    show_verified: bool,
) -> int {
    if msg.is_system {
        12
    } else {
        (8 + indicator_spec(msg.sender_id, status, show_verified).len() + 1 + sanitize_spec(
            sender_name_spec(msg, members),
        ).len() + 2) as int
    }
}

/// Width of the message prefix in terminal columns.
pub fn message_prefix_width(
    msg: &DisplayMessage,
    members: &[RoomMember],
    verification_status: &HashMap<u128, VerificationStatus>,
    show_verified: bool,
) -> (r: usize)
    requires
        prefix_width_spec(*msg, members@, verification_status@, show_verified) <= usize::MAX,
    ensures
        r == prefix_width_spec(*msg, members@, verification_status@, show_verified),
{
    let time_prefix: usize = 8;
    if msg.is_system {
        time_prefix + 4
    } else {
        let name = resolve_sender_name(msg, members);
        let sender = sanitize_for_terminal(name.as_str());
        let indicator = verification_indicator(msg.sender_id, verification_status, show_verified);
        let iw = display_width(indicator);
        proof {
            reveal_strlit("[!] ");
            reveal_strlit("[?] ");
            reveal_strlit("[\u{2713}] ");
            reveal_strlit("");
        }
        assert(iw <= 4);
        time_prefix + iw + 1 + display_width(sender.as_str()) + 2
    }
}

/// Rows taken by the first `n` lines of a message, the first line preceded
/// by a prefix `prefix` columns wide.
pub open spec fn lines_rows(lines: Seq<Seq<char>>, prefix: int, cols: int, n: nat) -> int
    decreases n,
{
    if n == 0 {
        0
    } else {
        let k = (n - 1) as int;
        let width = if k == 0 {
            prefix + lines[k].len()
        } else {
            lines[k].len() as int
        };
        lines_rows(lines, prefix, cols, (n - 1) as nat) + rows_for_width_spec(width, cols) as int
    }
}

/// Partial sums of rows only grow.
pub proof fn lemma_lines_rows_monotone(
    lines: Seq<Seq<char>>,
    prefix: int,
    cols: int,
    m: nat,
    n: nat,
)
    requires
        m <= n,
    ensures
        0 <= lines_rows(lines, prefix, cols, m) <= lines_rows(lines, prefix, cols, n),
    decreases n,
{
    if m < n {
        lemma_lines_rows_monotone(lines, prefix, cols, m, (n - 1) as nat);
    } else if n > 0 {
        lemma_lines_rows_monotone(lines, prefix, cols, (n - 1) as nat, (n - 1) as nat);
    }
}

/// Every piece of a split is no longer than the text.
pub proof fn lemma_split_pieces_short(s: Seq<char>, sep: char)
    ensures
        forall|k: int|
            0 <= k < split_spec(s, sep).len() ==> (#[trigger] split_spec(s, sep)[k]).len()
                <= s.len(),
    decreases s.len(),
{
    if s.len() > 0 {
        lemma_split_pieces_short(s.drop_first(), sep);
        crate::text::lemma_split_nonempty(s.drop_first(), sep);
    }
}

/// Rows a message takes on a terminal `cols` wide: each of its lines
/// (separated by newlines) wraps on its own, the first one after the prefix;
/// at least one row, and one row when the width is zero.
pub open spec fn visual_rows_spec(
    msg: DisplayMessage,
    cols: u16,
    members: Seq<RoomMember>,
    status: Map<u128, VerificationStatus>,
    show_verified: bool,
) -> int {
    if cols == 0 {
        1
    } else {
        let lines = split_spec(sanitize_spec(msg.content@), '\n');
        let total = lines_rows(
            lines,
            prefix_width_spec(msg, members, status, show_verified),
            cols as int,
            lines.len(),
        );
        if total < 1 {
            1
        } else {
            total
        }
    }
}

/// Compute how many terminal rows a message occupies.
pub fn visual_line_count(
    msg: &DisplayMessage,
    cols: u16,
    members: &[RoomMember],
    verification_status: &HashMap<u128, VerificationStatus>,
    show_verified: bool,
) -> (r: usize)
    requires
        cols > 0 ==> prefix_width_spec(*msg, members@, verification_status@, show_verified)
            + sanitize_spec(msg.content@).len() + cols <= usize::MAX,
        cols > 0 ==> visual_rows_spec(*msg, cols, members@, verification_status@, show_verified)
            <= usize::MAX,
    ensures
        r == visual_rows_spec(*msg, cols, members@, verification_status@, show_verified),
{
    let cols_usize = cols as usize;
    if cols_usize == 0 {
        return 1;
    }
    let prefix_width = message_prefix_width(msg, members, verification_status, show_verified);
    let content = sanitize_for_terminal(msg.content.as_str());
    let chars = chars_of(content.as_str());
    let lines = split(chars.as_slice(), '\n');
    let ghost lv = split_spec(chars@, '\n');
    let ghost total_spec = lines_rows(lv, prefix_width as int, cols as int, lv.len());
    proof {
        lemma_split_pieces_short(chars@, '\n');
        lemma_lines_rows_monotone(lv, prefix_width as int, cols as int, 0, lv.len());
    }
    let mut total_rows: usize = 0;
    let mut i: usize = 0;
    while i < lines.len()
        invariant
            i <= lines@.len(),
            views(lines@) == lv,
            lv.len() == lines@.len(),
            cols_usize == cols as usize,
            cols_usize > 0,
            prefix_width + chars@.len() + cols_usize <= usize::MAX,
            forall|k: int| 0 <= k < lv.len() ==> (#[trigger] lv[k]).len() <= chars@.len(),
            total_rows == lines_rows(lv, prefix_width as int, cols as int, i as nat),
            total_spec == lines_rows(lv, prefix_width as int, cols as int, lv.len()),
            total_spec <= usize::MAX,
        decreases lines@.len() - i,
    {
        assert(lines@[i as int]@ == lv[i as int]);
        let lw = lines[i].len();
        let line_width = if i == 0 {
            prefix_width + lw
        } else {
            lw
        };
        proof {
            lemma_lines_rows_monotone(lv, prefix_width as int, cols as int, (i + 1) as nat, lv.len());
        }
        let rows = rows_for_width(line_width, cols_usize);
        total_rows = total_rows + rows as usize;
        i = i + 1;
    }
    if total_rows < 1 {
        1
    } else {
        total_rows
    }
}

/// The input area never grows past this many rows.
pub const MAX_INPUT_HEIGHT: u16 = 10;

/// Rows of the input area for a line with the given text: one per line of
/// text (at least one, counted as a `u16`), at most `MAX_INPUT_HEIGHT`.
pub open spec fn input_rows_spec(text: Seq<char>) -> u16 {
    let n = split_spec(text, '\n').len();
    let count = (if n < 1 {
        1
    } else {
        n
    }) as u16;
    if count < MAX_INPUT_HEIGHT {
        count
    } else {
        MAX_INPUT_HEIGHT
    }
}

/// Number of terminal rows the input area occupies.
pub fn input_line_count(input: &InputLine) -> (r: u16)
    ensures
        r == input_rows_spec(input@.buffer),
{
    let content = input.content();
    let chars = chars_of(content.as_str());
    let lines = split(chars.as_slice(), '\n');
    let n = lines.len();
    let count = (if n < 1 {
        1
    } else {
        n
    }) as u16;
    if count < MAX_INPUT_HEIGHT {
        count
    } else {
        MAX_INPUT_HEIGHT
    }
}

/// The line and column of a character offset within lines that were
/// separated by single newlines, searching from line `i` with `rem`
/// characters left; `(0, 0)` when the offset lies past the text.
pub open spec fn cursor_cell_from(lines: Seq<Seq<char>>, rem: int, i: nat) -> (nat, nat)
    decreases lines.len() - i,
{
    if i >= lines.len() {
        (0, 0)
    } else if rem <= lines[i as int].len() {
        (i, rem as nat)
    } else {
        cursor_cell_from(lines, rem - lines[i as int].len() - 1, i + 1)
    }
}

/// Where the cursor of the input area goes: the column (after the prefix on
/// the first line) and the row offset, kept within the area's height.
pub open spec fn input_cursor_spec(
    text: Seq<char>,
    cursor: nat,
    prefix_len: nat,
    height: u16,
) -> (nat, nat) {
    let (line, col) = cursor_cell_from(split_spec(text, '\n'), cursor as int, 0);
    let c = if line == 0 {
        prefix_len + col
    } else {
        col
    };
    let last = if height == 0 {
        0
    } else {
        height - 1
    };
    (c, if line < last {
        line
    } else {
        last as nat
    })
}

/// The column and row offset of the cursor in the input area, given the
/// prefix length and the area's height.
pub fn input_cursor_position(input: &InputLine, prefix_len: usize, height: u16) -> (r: (
    usize,
    usize,
))
    requires
        input.wf(),
        prefix_len + input@.buffer.len() <= usize::MAX,
    ensures
        r.0 == input_cursor_spec(input@.buffer, input@.cursor, prefix_len as nat, height).0,
        r.1 == input_cursor_spec(input@.buffer, input@.cursor, prefix_len as nat, height).1,
{
    let content = input.content();
    let chars = chars_of(content.as_str());
    let lines = split(chars.as_slice(), '\n');
    let ghost lv = split_spec(chars@, '\n');
    proof {
        lemma_split_pieces_short(chars@, '\n');
    }
    let cursor = input.cursor_position();
    let mut remaining = cursor;
    let mut line: usize = 0;
    let mut col: usize = 0;
    let mut i: usize = 0;
    while i < lines.len()
        invariant_except_break
            i <= lines@.len(),
            views(lines@) == lv,
            forall|k: int| 0 <= k < lv.len() ==> (#[trigger] lv[k]).len() <= chars@.len(),
            remaining <= cursor,
            cursor_cell_from(lv, remaining as int, i as nat) == cursor_cell_from(
                lv,
                cursor as int,
                0,
            ),
            line == 0 && col == 0,
        ensures
            (line as nat, col as nat) == cursor_cell_from(lv, cursor as int, 0),
            col <= chars@.len(),
        decreases lines@.len() - i,
    {
        assert(lines@[i as int]@ == lv[i as int]);
        let count = lines[i].len();
        if remaining <= count {
            line = i;
            col = remaining;
            break;
        }
        remaining = remaining - (count + 1);
        i = i + 1;
    }
    let display_col = if line == 0 {
        prefix_len + col
    } else {
        col
    };
    let last: usize = if height == 0 {
        0
    } else {
        (height - 1) as usize
    };
    (display_col, if line < last {
        line
    } else {
        last
    })
}

/// Walking back from message `end`, the first message of those that fit in
/// `rows` rows, given the rows each message takes; the newest message is
/// always shown.
pub open spec fn visible_start_from(counts: Seq<usize>, end: int, rows: int, start: int, acc: int) -> int
    decreases start,
{
    if start <= 0 {
        start
    } else if acc + counts[start - 1] > rows && start < end {
        start
    } else {
        visible_start_from(counts, end, rows, start - 1, acc + counts[start - 1])
    }
}

/// The index of the first message to draw so that the messages up to `end`
/// fill at most `rows` rows (the last one is drawn even when it alone takes
/// more).
pub fn visible_start(counts: &[usize], end: usize, rows: usize) -> (r: usize)
    requires
        end <= counts@.len(),
    ensures
        r == visible_start_from(counts@, end as int, rows as int, end as int, 0),
        r <= end,
{
    let mut acc: usize = 0;
    let mut start = end;
    while start > 0
        invariant
            start <= end <= counts@.len(),
            start + 1 < end ==> acc <= rows,
            start == end ==> acc == 0,
            visible_start_from(counts@, end as int, rows as int, start as int, acc as int)
                == visible_start_from(counts@, end as int, rows as int, end as int, 0),
        decreases start,
    {
        let m = counts[start - 1];
        if start < end && (acc > rows || m > rows - acc) {
            return start;
        }
        acc = acc + m;
        start = start - 1;
    }
    start
}

/// The twelve colours a sender's name can take.
#[derive(Debug, Clone, Copy, PartialEq, Eq, Structural)]
pub enum NickColor {
    Red,
    Green,
    Yellow,
    Blue,
    Magenta,
    Cyan,
    DarkRed,
    DarkGreen,
    DarkYellow,
    DarkBlue,
    DarkMagenta,
    DarkCyan,
}

/// The colour at a position of the palette.
pub open spec fn nick_palette(i: int) -> NickColor {
    if i == 0 {
        NickColor::Red
    } else if i == 1 {
        NickColor::Green
    } else if i == 2 {
        NickColor::Yellow
    } else if i == 3 {
        NickColor::Blue
    } else if i == 4 {
        NickColor::Magenta
    } else if i == 5 {
        NickColor::Cyan
    } else if i == 6 {
        NickColor::DarkRed
    } else if i == 7 {
        NickColor::DarkGreen
    } else if i == 8 {
        NickColor::DarkYellow
    } else if i == 9 {
        NickColor::DarkBlue
    } else if i == 10 {
        NickColor::DarkMagenta
    } else {
        NickColor::DarkCyan
    }
}

/// The palette position of a sender: the low bits of the ID that fit in a
/// `usize`, multiplied by 2654435761 with wrap-around, modulo twelve.
pub open spec fn nick_index_spec(sender_id: u128) -> int {
    vstd::wrapping::usize_specs::wrapping_mul(sender_id as usize, 2654435761) as int % 12
}

/// Assign a consistent colour to a sender based on their user ID.
pub fn username_color(sender_id: u128) -> (r: NickColor)
    ensures
        r == nick_palette(nick_index_spec(sender_id)),
{
    let colors: [NickColor; 12] = [
        NickColor::Red,
        NickColor::Green,
        NickColor::Yellow,
        NickColor::Blue,
        NickColor::Magenta,
        NickColor::Cyan,
        NickColor::DarkRed,
        NickColor::DarkGreen,
        NickColor::DarkYellow,
        NickColor::DarkBlue,
        NickColor::DarkMagenta,
        NickColor::DarkCyan,
    ];
    let hash = (sender_id as usize).wrapping_mul(2654435761);
    let i = hash % 12;
    colors[i]
}

/// The trust badge before the status bar: its colour and label, shown for
/// an active room unless the room is verified and verified indicators are
/// hidden.
pub open spec fn badge_spec(s: AppState) -> Option<((u8, u8, u8), Seq<char>)> {
    match s.active_room {
        Some(g) => if s.rooms@.contains_key(g) {
            let trust = room_trust_spec(s.rooms@[g].members@, s.verification_status@);
            if trust == RoomTrustLevel::Verified && !s.show_verified_indicator {
                None
            } else {
                Some(
                    match trust {
                        RoomTrustLevel::Risky => (INDICATOR_COLOR_RISKY, "[!]"@),
                        RoomTrustLevel::Unverified => (INDICATOR_COLOR_UNVERIFIED, "[?]"@),
                        RoomTrustLevel::Verified => (INDICATOR_COLOR_VERIFIED, "\u{2713}"@),
                    },
                )
            }
        } else {
            None
        },
        None => None,
    }
}

/// The text of the status bar: connection, active room with its member
/// count, and user name.
pub open spec fn status_text_spec(s: AppState) -> Seq<char> {
    let icon = match s.connection_status {
        ConnectionStatus::Connected => "connected"@,
        ConnectionStatus::Connecting => "connecting..."@,
        ConnectionStatus::Disconnected => "disconnected"@,
    };
    let room = match s.active_room {
        Some(g) => if s.rooms@.contains_key(g) {
            "#"@ + sanitize_spec(room_display_name_spec(s.rooms@[g])) + " ("@ + decimal_spec(
                s.rooms@[g].members@.len(),
            ) + ")"@
        } else {
            "no room"@
        },
        None => "no room"@,
    };
    let user = match s.username {
        Some(u) => u@,
        None => "not logged in"@,
    };
    " ["@ + icon + "] "@ + room + " | "@ + user + " "@
}

/// The status bar: the trust badge, the text, and the spaces that pad it to
/// the terminal's width.
pub struct StatusBar {
    pub badge: Option<((u8, u8, u8), &'static str)>,
    pub text: String,
    pub padding: usize,
}

/// Columns the badge takes: ` [?] ` is five, ` ✓ ` three.
pub open spec fn badge_width_spec(s: AppState) -> int {
    match badge_spec(s) {
        Some((_, l)) => if l.len() == 1 {
            3
        } else {
            5
        },
        None => 0,
    }
}

/// The status bar of the current state.
pub fn status_bar(state: &AppState) -> (r: StatusBar)
    requires
        byte_len(status_text_spec(*state)) + 5 <= usize::MAX,
    ensures
        r.text@ == status_text_spec(*state),
        match (r.badge, badge_spec(*state)) {
            (Some((c, l)), Some((c2, l2))) => c == c2 && l@ == l2,
            (None, None) => true,
            _ => false,
        },
        r.padding == (if byte_len(status_text_spec(*state)) + badge_width_spec(*state)
            >= state.terminal_cols {
            0
        } else {
            state.terminal_cols - (byte_len(status_text_spec(*state)) + badge_width_spec(
                *state,
            ))
        }),
{
    proof {
        reveal_strlit("[!]");
        reveal_strlit("[?]");
        reveal_strlit("\u{2713}");
    }
    let (badge, badge_width): (Option<((u8, u8, u8), &'static str)>, usize) = match state.active_room_info() {
        Some(room) => {
            let trust = room_trust_level(room.members.as_slice(), &state.verification_status);
            match trust {
                RoomTrustLevel::Verified => if state.show_verified_indicator {
                    (Some((INDICATOR_COLOR_VERIFIED, "\u{2713}")), 3)
                } else {
                    (None, 0)
                },
                RoomTrustLevel::Risky => (Some((INDICATOR_COLOR_RISKY, "[!]")), 5),
                RoomTrustLevel::Unverified => (Some((INDICATOR_COLOR_UNVERIFIED, "[?]")), 5),
            }
        },
        None => (None, 0),
    };
    let mut out: Vec<char> = Vec::new();
    push_str(&mut out, " [");
    match state.connection_status {
        ConnectionStatus::Connected => push_str(&mut out, "connected"),
        ConnectionStatus::Connecting => push_str(&mut out, "connecting..."),
        ConnectionStatus::Disconnected => push_str(&mut out, "disconnected"),
    }
    push_str(&mut out, "] ");
    match state.active_room_info() {
        Some(room) => {
            push_str(&mut out, "#");
            let name = room.display_name();
            let clean = sanitize_for_terminal(name.as_str());
            push_str(&mut out, clean.as_str());
            push_str(&mut out, " (");
            let count = u64_to_chars(room.members.len() as u64);
            push_all(&mut out, count.as_slice());
            push_str(&mut out, ")");
        },
        None => push_str(&mut out, "no room"),
    }
    push_str(&mut out, " | ");
    match &state.username {
        Some(u) => push_str(&mut out, u.as_str()),
        None => push_str(&mut out, "not logged in"),
    }
    push_str(&mut out, " ");
    let text = string_from_chars(out.as_slice());
    assert(text@ =~= status_text_spec(*state));
    let used = text.as_str().len() + badge_width;
    let cols = state.terminal_cols as usize;
    let padding = if used >= cols {
        0
    } else {
        cols - used
    };
    StatusBar { badge, text, padding }
}

/// The prompt before the input line and the text shown after it: in a
/// password prompt, the stage's label and one `*` per character typed;
/// otherwise `[#room] ` or `> ` and the line itself.
pub open spec fn input_prompt_spec(s: AppState, line: Seq<char>) -> (Seq<char>, Seq<char>) {
    match s.input_mode {
        InputMode::PasswordPrompt { purpose, stage } => (
            prompt_label_spec(stage, purpose),
            Seq::new(line.len(), |i: int| '*'),
        ),
        InputMode::Normal => (
            match s.active_room {
                Some(g) => if s.rooms@.contains_key(g) {
                    "[#"@ + sanitize_spec(room_display_name_spec(s.rooms@[g])) + "] "@
                } else {
                    "> "@
                },
                None => "> "@,
            },
            line,
        ),
    }
}

/// The prompt and the shown text of the input line.
pub fn input_prompt(state: &AppState, input: &InputLine) -> (r: (String, String))
    ensures
        r.0@ == input_prompt_spec(*state, input@.buffer).0,
        r.1@ == input_prompt_spec(*state, input@.buffer).1,
{
    let content = input.content();
    match &state.input_mode {
        InputMode::PasswordPrompt { purpose, stage } => {
            let label = stage.label(purpose);
            let chars = chars_of(content.as_str());
            let mut masked: Vec<char> = Vec::new();
            let mut i: usize = 0;
            while i < chars.len()
                invariant
                    i <= chars@.len(),
                    masked@ == Seq::new(i as nat, |k: int| '*'),
                decreases chars@.len() - i,
            {
                masked.push('*');
                assert(masked@ =~= Seq::new((i + 1) as nat, |k: int| '*'));
                i = i + 1;
            }
            (owned(label), string_from_chars(masked.as_slice()))
        },
        InputMode::Normal => {
            let prefix = match state.active_room_info() {
                Some(room) => {
                    let name = room.display_name();
                    let clean = sanitize_for_terminal(name.as_str());
                    let mut out: Vec<char> = Vec::new();
                    push_str(&mut out, "[#");
                    push_str(&mut out, clean.as_str());
                    push_str(&mut out, "] ");
                    string_from_chars(out.as_slice())
                },
                None => owned("> "),
            };
            (prefix, content)
        },
    }
}

} // verus!

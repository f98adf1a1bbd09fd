//! The text of desktop notifications: cleaned of control characters and cut
//! to a length that notification daemons accept. Showing them is left to the
//! caller.

use vstd::prelude::*;

use crate::text::{chars_of, string_from_chars};
use crate::{sanitize_control_chars, sanitize_spec};

verus! {

/// Longest notification summary, in bytes, before it is cut.
pub const MAX_SUMMARY_LENGTH: usize = 256;

/// Longest notification body, in bytes, before it is cut.
pub const MAX_BODY_LENGTH: usize = 1024;

/// The length of a text in bytes of UTF-8, as `str::len` gives it.
pub open spec fn byte_len(s: Seq<char>) -> usize {
    vstd::utf8::encode_utf8(s).len() as usize
}

/// A text that fits in `max_length` bytes of UTF-8 is kept; a longer one is
/// cut to its first `max_length` characters, followed by an ellipsis.
pub open spec fn truncate_spec(input: Seq<char>, max_length: nat) -> Seq<char> {
    if byte_len(input) <= max_length {
        input
    } else {
        input.take(
            if max_length < input.len() {
                max_length as int
            } else {
                input.len() as int
            },
        ).push('\u{2026}')
    }
}

/// Cuts a text that is longer than `max_length` bytes.
pub fn truncate_str(input: &str, max_length: usize) -> (r: String)
    ensures
        r@ == truncate_spec(input@, max_length as nat),
{
    if input.len() <= max_length {
        return string_from_chars(chars_of(input).as_slice());
    }
    let chars = chars_of(input);
    let n = if max_length < chars.len() {
        max_length
    } else {
        chars.len()
    };
    let mut out: Vec<char> = Vec::new();
    let mut i: usize = 0;
    while i < n
        invariant
            i <= n <= chars@.len(),
            out@ == chars@.take(i as int),
        decreases n - i,
    {
        out.push(chars[i]);
        assert(chars@.take(i + 1) =~= chars@.take(i as int).push(chars@[i as int]));
        i = i + 1;
    }
    out.push('\u{2026}');
    string_from_chars(out.as_slice())
}

/// A cut text keeps a prefix of the original and has at most one character
/// more than the limit.
pub proof fn lemma_truncate_bounds(input: Seq<char>, max_length: nat)
    ensures
        truncate_spec(input, max_length).len() <= input.len() + 1,
        truncate_spec(input, max_length) != input ==> {
            &&& truncate_spec(input, max_length).len() <= max_length + 1
            &&& truncate_spec(input, max_length).drop_last() == input.take(
                truncate_spec(input, max_length).len() - 1,
            )
        },
{
}

/// The summary and body of a notification, cleaned and cut.
pub fn notification_text(summary: &str, body: &str) -> (r: (String, String))
    ensures
        r.0@ == truncate_spec(sanitize_spec(summary@), MAX_SUMMARY_LENGTH as nat),
        r.1@ == truncate_spec(sanitize_spec(body@), MAX_BODY_LENGTH as nat),
{
    let s = sanitize_control_chars(summary);
    let b = sanitize_control_chars(body);
    (truncate_str(s.as_str(), MAX_SUMMARY_LENGTH), truncate_str(b.as_str(), MAX_BODY_LENGTH))
}

} // verus!

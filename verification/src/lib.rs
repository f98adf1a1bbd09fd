//! Verified core of the Conclave end-to-end encrypted group messaging client:
//! command parsing, duration handling, room and message state, trust levels,
//! and the line editor of the terminal interface.

pub mod api;
pub mod cli;
pub mod command;
pub mod config;
pub mod duration;
pub mod editor;
pub mod error;
pub mod ids;
pub mod mls;
pub mod operations;
pub mod repl;
pub mod state;
pub mod text;
pub mod tofu;
pub mod tui;

use vstd::prelude::*;

use crate::text::{chars_of, string_from_chars};

verus! {

/// ASCII control characters that are stripped before text reaches a terminal
/// or a notification: U+0000..U+001F except the newline, and U+007F.
pub open spec fn is_stripped_control(c: char) -> bool {
    let n = c as u32;
    n != 0x0a && (n <= 0x1f || n == 0x7f)
}

/// `s` with every stripped control character removed, other characters kept
/// in order.
pub open spec fn sanitize_spec(s: Seq<char>) -> Seq<char>
    decreases s.len(),
{
    if s.len() == 0 {
        s
    } else {
        let rest = sanitize_spec(s.drop_last());
        if is_stripped_control(s.last()) {
            rest
        } else {
            rest.push(s.last())
        }
    }
}

/// Strips ASCII control characters from a string to prevent terminal escape
/// injection and notification rendering issues. Preserves printable ASCII,
/// newlines, and all Unicode above U+007F.
pub fn sanitize_control_chars(input: &str) -> (r: String)
    ensures
        r@ == sanitize_spec(input@),
{
    let s = chars_of(input);
    let mut out: Vec<char> = Vec::new();
    let mut i: usize = 0;
    while i < s.len()
        invariant
            i <= s@.len(),
            out@ == sanitize_spec(s@.take(i as int)),
        decreases s@.len() - i,
    {
        let c = s[i];
        let n = c as u32;
        assert(s@.take(i + 1).drop_last() =~= s@.take(i as int));
        if n == 0x0a || !(n <= 0x1f || n == 0x7f) {
            out.push(c);
        }
        i = i + 1;
    }
    assert(s@.take(s@.len() as int) =~= s@);
    string_from_chars(out.as_slice())
}

/// Sanitized text holds no stripped control character.
pub proof fn lemma_sanitize_no_controls(s: Seq<char>)
    ensures
        forall|j: int|
            0 <= j < sanitize_spec(s).len() ==> !is_stripped_control(
                #[trigger] sanitize_spec(s)[j],
            ),
    decreases s.len(),
{
    if s.len() > 0 {
        lemma_sanitize_no_controls(s.drop_last());
        let rest = sanitize_spec(s.drop_last());
        assert forall|j: int| 0 <= j < sanitize_spec(s).len() implies !is_stripped_control(
            #[trigger] sanitize_spec(s)[j],
        ) by {
            if j < rest.len() {
                assert(sanitize_spec(s)[j] == rest[j]);
            }
        }
    }
}

/// Text without stripped control characters is left unchanged.
pub proof fn lemma_sanitize_keeps_clean(s: Seq<char>)
    requires
        forall|j: int| 0 <= j < s.len() ==> !is_stripped_control(#[trigger] s[j]),
    ensures
        sanitize_spec(s) == s,
    decreases s.len(),
{
    if s.len() > 0 {
        lemma_sanitize_keeps_clean(s.drop_last());
        assert(s.drop_last().push(s.last()) =~= s);
    }
}

/// Sanitizing twice is the same as sanitizing once.
pub proof fn lemma_sanitize_idempotent(s: Seq<char>)
    ensures
        sanitize_spec(sanitize_spec(s)) == sanitize_spec(s),
{
    lemma_sanitize_no_controls(s);
    lemma_sanitize_keeps_clean(sanitize_spec(s));
}

} // verus!

//! Human-readable message expiry durations.
//!
//! A duration is a number of seconds; `-1` means disabled and `0` means that
//! messages are deleted once every member has fetched them.

use vstd::prelude::*;

use crate::error::{Error, Result};
use crate::text::{
    all_digits, digit_char, digits_value, has_sign, is_digit_spec, is_whitespace_spec,
    trim_start_spec, unsigned_part, chars_eq_str, chars_of, decimal_spec, i64_to_chars, int_text, owned, parse_i64, parse_i64_spec,
    push_all, push_str, slice_chars, string_from_chars, trim, trim_spec, u64_to_chars,
};

verus! {

/// Seconds per unit suffix: s=1, h=3600, d=86400, w=604800,
/// m=2592000 (30 days), y=31536000 (365 days).
pub open spec fn unit_seconds(c: char) -> Option<i64> {
    if c == 's' {
        Some(1i64)
    } else if c == 'h' {
        Some(3600i64)
    } else if c == 'd' {
        Some(86400i64)
    } else if c == 'w' {
        Some(604800i64)
    } else if c == 'm' {
        Some(2592000i64)
    } else if c == 'y' {
        Some(31536000i64)
    } else {
        None
    }
}

/// The message of a rejected duration: `invalid duration '<input>': <why>`.
pub open spec fn invalid_duration_msg(input: Seq<char>, why: Seq<char>) -> Seq<char> {
    "invalid duration '"@ + input + "': "@ + why
}

/// What `parse_duration` yields for a text: the number of seconds, or the
/// message of the error.
pub open spec fn parse_duration_spec(raw: Seq<char>) -> std::result::Result<i64, Seq<char>> {
    let input = trim_spec(raw);
    if input == "-1"@ {
        Ok(-1i64)
    } else if input == "0"@ {
        Ok(0i64)
    } else if input.len() == 0 {
        Err("empty duration string"@)
    } else {
        match unit_seconds(input.last()) {
            None => Err(invalid_duration_msg(input, "must end with s, h, d, w, m, or y"@)),
            Some(mult) => {
                let num = input.drop_last();
                match parse_i64_spec(num) {
                    None => Err(
                        invalid_duration_msg(
                            input,
                            "numeric part '"@ + num + "' is not a valid integer"@,
                        ),
                    ),
                    Some(n) => {
                        if n <= 0 {
                            Err(invalid_duration_msg(input, "numeric part must be positive"@))
                        } else if n * mult > i64::MAX {
                            Err(invalid_duration_msg(input, "value too large"@))
                        } else {
                            Ok((n * mult) as i64)
                        }
                    },
                }
            },
        }
    }
}

/// The characters of an `invalid duration` message.
fn invalid_duration(input: &[char], why: &[char]) -> (r: Vec<char>)
    ensures
        r@ == invalid_duration_msg(input@, why@),
{
    let mut out: Vec<char> = Vec::new();
    push_str(&mut out, "invalid duration '");
    push_all(&mut out, input);
    push_str(&mut out, "': ");
    push_all(&mut out, why);
    out
}

/// Parses a human-readable duration into seconds.
///
/// Accepts `-1` (disabled), `0` (delete after all members fetch), or a
/// positive number followed by one of the units `s`, `h`, `d`, `w`, `m`, `y`;
/// surrounding whitespace is ignored.
pub fn parse_duration(input: &str) -> (r: Result<i64>)
    ensures
        match r {
            Ok(v) => parse_duration_spec(input@) == Ok::<i64, Seq<char>>(v),
            Err(e) => e matches Error::Other(m) && parse_duration_spec(input@) == Err::<
                i64,
                Seq<char>,
            >(m@),
        },
{
    let raw = chars_of(input);
    let t = trim(raw.as_slice());
    if chars_eq_str(t.as_slice(), "-1") {
        return Ok(-1);
    }
    if chars_eq_str(t.as_slice(), "0") {
        return Ok(0);
    }
    if t.len() == 0 {
        return Err(Error::Other(owned("empty duration string")));
    }
    let last = t[t.len() - 1];
    let mult: i64 = if last == 's' {
        1
    } else if last == 'h' {
        3600
    } else if last == 'd' {
        86400
    } else if last == 'w' {
        604800
    } else if last == 'm' {
        2592000
    } else if last == 'y' {
        31536000
    } else {
        let why = chars_of("must end with s, h, d, w, m, or y");
        let msg = invalid_duration(t.as_slice(), why.as_slice());
        return Err(Error::Other(string_from_chars(msg.as_slice())));
    };
    let num = slice_chars(t.as_slice(), 0, t.len() - 1);
    assert(num@ =~= t@.drop_last());
    let number = match parse_i64(num.as_slice()) {
        Some(n) => n,
        None => {
            let mut why: Vec<char> = Vec::new();
            push_str(&mut why, "numeric part '");
            push_all(&mut why, num.as_slice());
            push_str(&mut why, "' is not a valid integer");
            let msg = invalid_duration(t.as_slice(), why.as_slice());
            return Err(Error::Other(string_from_chars(msg.as_slice())));
        },
    };
    if number <= 0 {
        let why = chars_of("numeric part must be positive");
        let msg = invalid_duration(t.as_slice(), why.as_slice());
        return Err(Error::Other(string_from_chars(msg.as_slice())));
    }
    match number.checked_mul(mult) {
        Some(v) => Ok(v),
        None => {
            let why = chars_of("value too large");
            let msg = invalid_duration(t.as_slice(), why.as_slice());
            Err(Error::Other(string_from_chars(msg.as_slice())))
        },
    }
}

/// The text of a duration: `disabled` for `-1`, `fetch-then-delete` for `0`,
/// and otherwise the value in the largest of y, m, w, d, h, s that divides it
/// evenly (a negative value other than `-1` is written in seconds).
pub open spec fn format_duration_spec(seconds: i64) -> Seq<char> {
    if seconds == -1 {
        "disabled"@
    } else if seconds == 0 {
        "fetch-then-delete"@
    } else if seconds < 0 {
        int_text(seconds as int) + seq!['s']
    } else if seconds % 31536000 == 0 {
        decimal_spec((seconds / 31536000) as nat) + seq!['y']
    } else if seconds % 2592000 == 0 {
        decimal_spec((seconds / 2592000) as nat) + seq!['m']
    } else if seconds % 604800 == 0 {
        decimal_spec((seconds / 604800) as nat) + seq!['w']
    } else if seconds % 86400 == 0 {
        decimal_spec((seconds / 86400) as nat) + seq!['d']
    } else if seconds % 3600 == 0 {
        decimal_spec((seconds / 3600) as nat) + seq!['h']
    } else {
        decimal_spec(seconds as nat) + seq!['s']
    }
}

/// Formats a number of seconds as the most natural duration text.
pub fn format_duration(seconds: i64) -> (r: String)
    ensures
        r@ == format_duration_spec(seconds),
{
    if seconds == -1 {
        return owned("disabled");
    }
    if seconds == 0 {
        return owned("fetch-then-delete");
    }
    if seconds < 0 {
        let mut out = i64_to_chars(seconds);
        out.push('s');
        return string_from_chars(out.as_slice());
    }
    let (divisor, suffix): (i64, char) = if seconds % 31536000 == 0 {
        (31536000, 'y')
    } else if seconds % 2592000 == 0 {
        (2592000, 'm')
    } else if seconds % 604800 == 0 {
        (604800, 'w')
    } else if seconds % 86400 == 0 {
        (86400, 'd')
    } else if seconds % 3600 == 0 {
        (3600, 'h')
    } else {
        (1, 's')
    };
    let mut out = u64_to_chars((seconds / divisor) as u64);
    out.push(suffix);
    string_from_chars(out.as_slice())
}

/// The effective expiry of a group under a server retention policy:
/// disabled only when both are; otherwise the stricter one, where `0`
/// (fetch-then-delete) is stricter than any positive value.
pub open spec fn compute_effective_spec(server: i64, group: i64) -> i64 {
    if server == -1 && group == -1 {
        -1i64
    } else if server == -1 {
        group
    } else if group == -1 {
        server
    } else if server == 0 || group == 0 {
        0
    } else if server <= group {
        server
    } else {
        group
    }
}

/// Computes the effective expiry from the server retention and the group
/// expiry (both in seconds, `-1` disabled, `0` fetch-then-delete).
pub fn compute_effective(server_retention_seconds: i64, group_expiry_seconds: i64) -> (r: i64)
    ensures
        r == compute_effective_spec(server_retention_seconds, group_expiry_seconds),
{
    if server_retention_seconds == -1 && group_expiry_seconds == -1 {
        -1
    } else if server_retention_seconds == -1 {
        group_expiry_seconds
    } else if group_expiry_seconds == -1 {
        server_retention_seconds
    } else if server_retention_seconds == 0 || group_expiry_seconds == 0 {
        0
    } else if server_retention_seconds <= group_expiry_seconds {
        server_retention_seconds
    } else {
        group_expiry_seconds
    }
}

/// The decimal text of a number is a non-empty run of ASCII digits whose
/// value is the number.
pub proof fn lemma_decimal_digits(n: nat)
    ensures
        decimal_spec(n).len() >= 1,
        all_digits(decimal_spec(n)),
        digits_value(decimal_spec(n)) == n,
    decreases n,
{
    if n >= 10 {
        lemma_decimal_digits(n / 10);
        let d = decimal_spec(n);
        assert(d.drop_last() =~= decimal_spec(n / 10));
        assert(d.last() == digit_char(n % 10));
        assert(digit_char(n % 10) as u32 == n % 10 + 48);
        assert(digits_value(d) == digits_value(d.drop_last()) * 10 + ((d.last() as u32) - 48) as nat);
        assert(digits_value(d) == (n / 10) * 10 + n % 10);
        assert((n / 10) * 10 + n % 10 == n);
        assert forall|j: int| 0 <= j < d.len() implies is_digit_spec(#[trigger] d[j]) by {
            if j < d.len() - 1 {
                assert(d[j] == decimal_spec(n / 10)[j]);
            }
        }
    } else {
        assert(decimal_spec(n) =~= seq![digit_char(n)]);
        assert(digit_char(n) as u32 == n + 48);
        assert(decimal_spec(n).drop_last() =~= Seq::<char>::empty());
        assert(digits_value(Seq::<char>::empty()) == 0);
        assert(digits_value(decimal_spec(n)) == 0 * 10 + n);
    }
}

/// Parsing the decimal text of a number within the range of `i64` gives the
/// number back.
pub proof fn lemma_parse_decimal(n: nat)
    requires
        n <= i64::MAX,
    ensures
        parse_i64_spec(decimal_spec(n)) == Some(n as i64),
{
    lemma_decimal_digits(n);
    let d = decimal_spec(n);
    assert(is_digit_spec(d[0]));
    assert(!has_sign(d));
    assert(unsigned_part(d) == d);
}

/// Text that starts and ends with a character outside `White_Space` is
/// unchanged by trimming.
pub proof fn lemma_trim_unchanged(s: Seq<char>)
    requires
        s.len() >= 1,
        !is_whitespace_spec(s[0]),
        !is_whitespace_spec(s.last()),
    ensures
        trim_spec(s) == s,
{
    assert(trim_start_spec(s) == s);
}

/// A unit suffix followed by digits does not contain whitespace at either end.
proof fn lemma_formatted_shape(q: nat, u: char)
    requires
        q >= 1,
        unit_seconds(u) is Some,
    ensures
        ({
            let text = decimal_spec(q) + seq![u];
            &&& trim_spec(text) == text
            &&& text.last() == u
            &&& text.drop_last() == decimal_spec(q)
            &&& text.len() >= 2
        }),
{
    lemma_decimal_digits(q);
    let text = decimal_spec(q) + seq![u];
    assert(text[0] == decimal_spec(q)[0]);
    assert(is_digit_spec(decimal_spec(q)[0]));
    assert(text.drop_last() =~= decimal_spec(q));
    lemma_trim_unchanged(text);
}

/// Parsing the text of a positive duration gives back the same number of
/// seconds: `parse_duration(format_duration(s)) == s` for every `s > 0`.
pub proof fn lemma_format_parse_roundtrip(seconds: i64)
    requires
        seconds > 0,
    ensures
        parse_duration_spec(format_duration_spec(seconds)) == Ok::<i64, Seq<char>>(seconds),
{
    reveal_strlit("-1");
    reveal_strlit("0");
    let (divisor, u): (i64, char) = if seconds % 31536000 == 0 {
        (31536000, 'y')
    } else if seconds % 2592000 == 0 {
        (2592000, 'm')
    } else if seconds % 604800 == 0 {
        (604800, 'w')
    } else if seconds % 86400 == 0 {
        (86400, 'd')
    } else if seconds % 3600 == 0 {
        (3600, 'h')
    } else {
        (1, 's')
    };
    let q = (seconds / divisor) as nat;
    assert(seconds % divisor == 0);
    assert(q * divisor == seconds) by (nonlinear_arith)
        requires
            seconds % divisor == 0,
            q == seconds / divisor,
            divisor > 0,
    ;
    assert(q >= 1) by (nonlinear_arith)
        requires
            q * divisor == seconds,
            seconds > 0,
            divisor > 0,
    ;
    assert(q <= seconds) by (nonlinear_arith)
        requires
            q * divisor == seconds,
            divisor >= 1,
            q >= 1,
    ;
    let text = decimal_spec(q) + seq![u];
    assert(format_duration_spec(seconds) == text);
    lemma_formatted_shape(q, u);
    lemma_parse_decimal(q);
    assert(text != "-1"@) by {
        assert(text.last() != "-1"@.last());
    }
    assert(text != "0"@) by {
        assert(text.len() != "0"@.len());
    }
    assert(unit_seconds(u) == Some(divisor));
}

/// The effective expiry does not depend on which side a policy comes from.
pub proof fn lemma_compute_effective_commutes(server: i64, group: i64)
    ensures
        compute_effective_spec(server, group) == compute_effective_spec(group, server),
{
}

/// Combining a policy with itself leaves it unchanged.
pub proof fn lemma_compute_effective_idempotent(policy: i64)
    ensures
        compute_effective_spec(policy, policy) == policy,
{
}

/// The effective expiry is disabled exactly when both policies are disabled,
/// and it is fetch-then-delete whenever one side is and the other is not
/// below `-1`.
pub proof fn lemma_compute_effective_disabled(server: i64, group: i64)
    ensures
        (compute_effective_spec(server, group) == -1) <== (server == -1 && group == -1),
        (server >= -1 && group >= -1 && (server == 0 || group == 0)) ==> compute_effective_spec(
            server,
            group,
        ) == 0,
        (server > 0 && group > 0) ==> compute_effective_spec(server, group) > 0,
{
}

} // verus!

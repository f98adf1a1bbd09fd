//! Identifiers of users, groups and invites.
//!
//! A UUID is held as its 128-bit value (`uuid::Uuid::as_u128`); its text
//! form is produced and read by the `uuid` crate.

use vstd::prelude::*;

verus! {

/// The value of an ASCII hexadecimal digit (either case).
pub open spec fn hex_value(c: char) -> Option<nat> {
    let n = c as u32;
    if 48 <= n <= 57 {
        Some((n - 48) as nat)
    } else if 97 <= n <= 102 {
        Some((n - 87) as nat)
    } else if 65 <= n <= 70 {
        Some((n - 55) as nat)
    } else {
        None
    }
}

/// The value of a run of hexadecimal digits, most significant first.
pub open spec fn hex_run_value(s: Seq<char>) -> Option<nat>
    decreases s.len(),
{
    if s.len() == 0 {
        Some(0)
    } else {
        match (hex_run_value(s.drop_last()), hex_value(s.last())) {
            (Some(a), Some(b)) => Some(a * 16 + b),
            _ => None,
        }
    }
}

/// The value of a hyphenated UUID text: 36 characters with `-` at positions
/// 8, 13, 18 and 23 and hexadecimal digits elsewhere.
pub open spec fn hyphenated_value(s: Seq<char>) -> Option<nat> {
    if s.len() == 36 && s[8] == '-' && s[13] == '-' && s[18] == '-' && s[23] == '-' {
        hex_run_value(
            s.subrange(0, 8) + s.subrange(9, 13) + s.subrange(14, 18) + s.subrange(19, 23)
                + s.subrange(24, 36),
        )
    } else {
        None
    }
}

/// ASCII lowercase of a character; other characters are unchanged.
pub open spec fn ascii_lower(c: char) -> char {
    if 'A' <= c <= 'Z' {
        ((c as u32) + 32) as char
    } else {
        c
    }
}

/// What `uuid::Uuid::parse_str` accepts, and the value it reads: 32 digits
/// (simple), a hyphenated text, a hyphenated text in braces, or a
/// hyphenated text after an ASCII-case-insensitive `urn:uuid:` prefix.
pub open spec fn uuid_parse_spec(s: Seq<char>) -> Option<u128> {
    let v = if s.len() == 32 {
        hex_run_value(s)
    } else if s.len() == 36 {
        hyphenated_value(s)
    } else if s.len() == 38 && s[0] == '{' && s[37] == '}' {
        hyphenated_value(s.subrange(1, 37))
    } else if s.len() == 45 && s.take(9).map_values(|c: char| ascii_lower(c)) == "urn:uuid:"@ {
        hyphenated_value(s.skip(9))
    } else {
        None
    };
    match v {
        Some(x) => Some(x as u128),
        None => None,
    }
}

/// The lowercase hexadecimal digit for `d` (`0 <= d < 16`).
pub open spec fn hex_digit_char(d: nat) -> char {
    if d < 10 {
        ((d + 48) as u8) as char
    } else {
        ((d + 87) as u8) as char
    }
}

/// The lowest `n` hexadecimal digits of `v`, most significant first.
pub open spec fn hex_fixed(v: nat, n: nat) -> Seq<char>
    decreases n,
{
    if n == 0 {
        Seq::<char>::empty()
    } else {
        hex_fixed(v / 16, (n - 1) as nat).push(hex_digit_char(v % 16))
    }
}

/// The hyphenated lowercase text of a UUID value, as `Display` writes it:
/// 32 hexadecimal digits in groups of 8-4-4-4-12.
pub open spec fn uuid_text_spec(v: u128) -> Seq<char> {
    let h = hex_fixed(v as nat, 32);
    h.subrange(0, 8) + seq!['-'] + h.subrange(8, 12) + seq!['-'] + h.subrange(12, 16) + seq!['-']
        + h.subrange(16, 20) + seq!['-'] + h.subrange(20, 32)
}

/// `uuid::Uuid::parse_str`: the value read from the text, or `None` when the
/// text is not in one of the accepted formats.
#[verifier::external_body]
pub(crate) fn parse_uuid(s: &str) -> (r: Option<u128>)
    ensures
        r == uuid_parse_spec(s@),
{
    match uuid::Uuid::parse_str(s) {
        Ok(u) => Some(u.as_u128()),
        Err(_) => None,
    }
}

/// `Display` of `uuid::Uuid::from_u128(v)`: the hyphenated lowercase text.
#[verifier::external_body]
pub(crate) fn uuid_to_string(v: u128) -> (r: String)
    ensures
        r@ == uuid_text_spec(v),
{
    uuid::Uuid::from_u128(v).to_string()
}

proof fn lemma_hex_digit(d: nat)
    requires
        d < 16,
    ensures
        hex_value(hex_digit_char(d)) == Some(d),
{
    if d < 10 {
        assert(((d + 48) as u8) as char as u32 == d + 48);
    } else {
        assert(((d + 87) as u8) as char as u32 == d + 87);
    }
}

proof fn lemma_hex_fixed(x: nat, n: nat)
    ensures
        hex_fixed(x, n).len() == n,
        vstd::arithmetic::power::pow(16, n) > 0,
        hex_run_value(hex_fixed(x, n)) == Some((x % (vstd::arithmetic::power::pow(16, n) as nat)) as nat),
    decreases n,
{
    vstd::arithmetic::power::lemma_pow_positive(16, n);
    if n == 0 {
        assert(vstd::arithmetic::power::pow(16, 0) == 1) by {
            reveal(vstd::arithmetic::power::pow);
        }
    } else {
        let m = (n - 1) as nat;
        lemma_hex_fixed(x / 16, m);
        let h = hex_fixed(x / 16, m);
        assert(hex_fixed(x, n).drop_last() =~= h);
        lemma_hex_digit(x % 16);
        let p = vstd::arithmetic::power::pow(16, m);
        assert(vstd::arithmetic::power::pow(16, n) == 16 * p) by {
            reveal(vstd::arithmetic::power::pow);
        }
        vstd::arithmetic::div_mod::lemma_mod_breakdown(x as int, 16, p);
        assert(hex_run_value(hex_fixed(x, n)) == Some(((x / 16) % (p as nat)) * 16 + x % 16));
    }
}

/// The text a UUID value is written as reads back as that value.
pub proof fn lemma_uuid_text_parses(v: u128)
    ensures
        uuid_parse_spec(uuid_text_spec(v)) == Some(v),
{
    let h = hex_fixed(v as nat, 32);
    lemma_hex_fixed(v as nat, 32);
    assert(vstd::arithmetic::power::pow(16, 32) == 0x1_0000_0000_0000_0000_0000_0000_0000_0000int) by {
        reveal_with_fuel(vstd::arithmetic::power::pow, 33);
    }
    vstd::arithmetic::div_mod::lemma_small_mod(v as nat, 0x1_0000_0000_0000_0000_0000_0000_0000_0000nat);
    let t = uuid_text_spec(v);
    assert(t.len() == 36);
    assert(t[8] == '-' && t[13] == '-' && t[18] == '-' && t[23] == '-');
    assert(t.subrange(0, 8) + t.subrange(9, 13) + t.subrange(14, 18) + t.subrange(19, 23)
        + t.subrange(24, 36) =~= h);
}

} // verus!

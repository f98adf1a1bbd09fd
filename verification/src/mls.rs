//! The MLS identity of this client and the text form of MLS group IDs.
//!
//! A group is named locally by the lowercase hex text of its MLS group ID;
//! the identity is a serialized signing identity and its signing key, kept in
//! files under the data directory next to the group state database. Running
//! the MLS protocol and reading or writing those files is left to the caller.

use vstd::prelude::*;

use crate::error::Error;
use crate::text::{push_str, string_from_chars};

verus! {

/// Why a text is not a hex encoding of bytes.
#[derive(Debug, Clone, Copy, PartialEq, Eq, Structural)]
pub enum HexError {
    /// A character that is not a hex digit, as the byte it starts with, and
    /// the byte's position.
    InvalidHexCharacter { c: char, index: usize },
    /// An odd number of digits.
    OddLength,
    /// A length that does not fit the buffer decoded into.
    InvalidStringLength,
}

/// The value of a hex digit, upper or lower case; none for another byte.
pub open spec fn hex_digit_value(c: u8) -> Option<u8> {
    if 0x30 <= c <= 0x39 {
        Some((c - 0x30) as u8)
    } else if 0x61 <= c <= 0x66 {
        Some((c - 0x61 + 10) as u8)
    } else if 0x41 <= c <= 0x46 {
        Some((c - 0x41 + 10) as u8)
    } else {
        None
    }
}

/// Every byte is a hex digit.
pub open spec fn all_hex(s: Seq<u8>) -> bool {
    forall|i: int| 0 <= i < s.len() ==> (#[trigger] hex_digit_value(s[i])) is Some
}

/// The position of the first byte that is not a hex digit.
pub open spec fn first_non_hex(s: Seq<u8>) -> int {
    choose|i: int|
        0 <= i < s.len() && hex_digit_value(s[i]) is None && forall|j: int|
            0 <= j < i ==> (#[trigger] hex_digit_value(s[j])) is Some
}

/// The bytes that pairs of hex digits stand for, high digit first.
pub open spec fn hex_bytes(s: Seq<u8>) -> Seq<u8> {
    Seq::new(
        (s.len() / 2) as nat,
        |k: int|
            (hex_digit_value(s[2 * k])->0 * 16 + hex_digit_value(s[2 * k + 1])->0) as u8,
    )
}

/// Decoding hex text, given as its bytes: an odd number of digits is
/// refused; otherwise the first byte that is not a hex digit is reported
/// with its position; otherwise each pair of digits gives a byte.
pub open spec fn hex_decode_spec(s: Seq<u8>) -> Result<Seq<u8>, HexError> {
    if s.len() % 2 != 0 {
        Err(HexError::OddLength)
    } else if all_hex(s) {
        Ok(hex_bytes(s))
    } else {
        Err(
            HexError::InvalidHexCharacter {
                c: s[first_non_hex(s)] as char,
                index: first_non_hex(s) as usize,
            },
        )
    }
}

/// The lowercase hex digit of a value below sixteen.
pub open spec fn hex_char(n: u8) -> char {
    if n < 10 {
        (n + 48) as char
    } else {
        (n + 87) as char
    }
}

/// The lowercase hex text of bytes, two digits per byte, high digit first.
pub open spec fn hex_text_spec(b: Seq<u8>) -> Seq<char>
    decreases b.len(),
{
    if b.len() == 0 {
        Seq::empty()
    } else {
        hex_text_spec(b.drop_last()) + seq![hex_char(b.last() / 16), hex_char(b.last() % 16)]
    }
}

/// `hex::decode`: the bytes that a hex text stands for. Stated as the crate's
/// source has it: the length is checked first, then each pair of bytes in
/// order, the first that is not a hex digit being reported.
#[verifier::external_body]
fn hex_decode(text: &str) -> (r: Result<Vec<u8>, HexError>)
    ensures
        match (r, hex_decode_spec(vstd::utf8::encode_utf8(text@))) {
            (Ok(v), Ok(b)) => v@ == b,
            (Err(e), Err(f)) => e == f,
            _ => false,
        },
{
    match hex::decode(text) {
        Ok(v) => Ok(v),
        Err(hex::FromHexError::InvalidHexCharacter { c, index }) => Err(
            HexError::InvalidHexCharacter { c, index },
        ),
        Err(hex::FromHexError::OddLength) => Err(HexError::OddLength),
        Err(hex::FromHexError::InvalidStringLength) => Err(HexError::InvalidStringLength),
    }
}

/// `hex::encode`: the lowercase hex text of bytes.
#[verifier::external_body]
fn hex_encode(bytes: &[u8]) -> (r: String)
    ensures
        r@ == hex_text_spec(bytes@),
{
    hex::encode(bytes)
}

/// What `hex::FromHexError` shows for an invalid character at a position.
pub uninterp spec fn spec_hex_char_error_text(c: char, index: usize) -> Seq<char>;

/// The text of a hex decoding error, as `hex::FromHexError` displays it.
pub open spec fn hex_error_text_spec(e: HexError) -> Seq<char> {
    match e {
        HexError::InvalidHexCharacter { c, index } => spec_hex_char_error_text(c, index),
        HexError::OddLength => "Odd number of digits"@,
        HexError::InvalidStringLength => "Invalid string length"@,
    }
}

/// The `Display` text of `hex::FromHexError`: fixed texts for a wrong
/// length; for an invalid character, a text that depends on the character
/// and its position alone (the character is shown as `Debug` shows it, which
/// is not stated here).
#[verifier::external_body]
fn hex_error_text(e: &HexError) -> (r: String)
    ensures
        match *e {
            HexError::InvalidHexCharacter { c, index } => r@ == spec_hex_char_error_text(c, index),
            HexError::OddLength => r@ == "Odd number of digits"@,
            HexError::InvalidStringLength => r@ == "Invalid string length"@,
        },
{
    let err = match e {
        HexError::InvalidHexCharacter { c, index } => hex::FromHexError::InvalidHexCharacter {
            c: *c,
            index: *index,
        },
        HexError::OddLength => hex::FromHexError::OddLength,
        HexError::InvalidStringLength => hex::FromHexError::InvalidStringLength,
    };
    err.to_string()
}

/// The MLS group ID that a local group ID (its hex text) names; an MLS error
/// that quotes the decoding error when the text is not hex.
pub fn decode_group_id(mls_group_id: &str) -> (r: Result<Vec<u8>, Error>)
    ensures
        match hex_decode_spec(vstd::utf8::encode_utf8(mls_group_id@)) {
            Ok(b) => r matches Ok(v) && v@ == b,
            Err(e) => r matches Err(Error::Mls(m)) && m@ == "invalid group ID: "@
                + hex_error_text_spec(e),
        },
{
    match hex_decode(mls_group_id) {
        Ok(v) => Ok(v),
        Err(e) => {
            let text = hex_error_text(&e);
            let mut out: Vec<char> = Vec::new();
            push_str(&mut out, "invalid group ID: ");
            push_str(&mut out, text.as_str());
            Err(Error::Mls(string_from_chars(out.as_slice())))
        },
    }
}

/// The local group ID of an MLS group: the lowercase hex text of its ID.
pub fn encode_group_id(group_id: &[u8]) -> (r: String)
    ensures
        r@ == hex_text_spec(group_id@),
{
    hex_encode(group_id)
}

/// The digits of the hex text of bytes, pair by pair.
proof fn lemma_hex_text_digits(b: Seq<u8>)
    ensures
        hex_text_spec(b).len() == 2 * b.len(),
        forall|k: int|
            0 <= k < b.len() ==> #[trigger] hex_text_spec(b)[2 * k] == hex_char(b[k] / 16)
                && hex_text_spec(b)[2 * k + 1] == hex_char(b[k] % 16),
    decreases b.len(),
{
    if b.len() > 0 {
        let p = hex_text_spec(b.drop_last());
        lemma_hex_text_digits(b.drop_last());
        let last = b.len() - 1;
        assert(hex_text_spec(b) == p + seq![hex_char(b.last() / 16), hex_char(b.last() % 16)]);
        assert forall|k: int| 0 <= k < b.len() implies #[trigger] hex_text_spec(b)[2 * k]
            == hex_char(b[k] / 16) && hex_text_spec(b)[2 * k + 1] == hex_char(b[k] % 16) by {
            if k < last {
                assert(b.drop_last()[k] == b[k]);
                assert(p[2 * k] == hex_char(b[k] / 16));
                assert(hex_text_spec(b)[2 * k] == p[2 * k]);
                assert(hex_text_spec(b)[2 * k + 1] == p[2 * k + 1]);
            } else {
                assert(k == last);
                assert(2 * k == p.len());
            }
        }
    }
}

/// A hex digit is ASCII, and reads back as the value it was made from.
proof fn lemma_hex_char(n: u8)
    requires
        n < 16,
    ensures
        hex_char(n) <= '\u{7f}',
        hex_digit_value(hex_char(n) as u8) == Some(n),
{
}

/// Decoding the hex text of bytes gives the bytes back: a group's local ID
/// always names the group it was made from.
pub proof fn lemma_group_id_roundtrip(b: Seq<u8>)
    ensures
        hex_decode_spec(vstd::utf8::encode_utf8(hex_text_spec(b))) == Ok::<Seq<u8>, HexError>(b),
{
    let t = hex_text_spec(b);
    lemma_hex_text_digits(b);
    assert forall|i: int| 0 <= i < t.len() implies '\0' <= #[trigger] t[i] <= '\u{7f}'
        && hex_digit_value(t[i] as u8) is Some by {
        let k = i / 2;
        assert(0 <= k < b.len());
        if i % 2 == 0 {
            assert(i == 2 * k);
            assert(t[2 * k] == hex_char(b[k] / 16));
            lemma_hex_char(b[k] / 16);
        } else {
            assert(i == 2 * k + 1);
            assert(t[2 * k] == hex_char(b[k] / 16));
            assert(t[2 * k + 1] == hex_char(b[k] % 16));
            lemma_hex_char(b[k] % 16);
        }
    }
    assert(vstd::utf8::is_ascii_chars(t));
    vstd::utf8::is_ascii_chars_encode_utf8(t);
    let s = vstd::utf8::encode_utf8(t);
    assert forall|i: int| 0 <= i < s.len() implies (#[trigger] hex_digit_value(s[i])) is Some by {
        assert(t[i] as u8 == s[i]);
    }
    assert(all_hex(s));
    assert(s.len() % 2 == 0);
    assert forall|k: int| 0 <= k < b.len() implies #[trigger] hex_bytes(s)[k] == b[k] by {
        assert(t[2 * k] as u8 == s[2 * k]);
        assert(t[2 * k + 1] as u8 == s[2 * k + 1]);
        lemma_hex_char(b[k] / 16);
        lemma_hex_char(b[k] % 16);
    }
    assert(hex_bytes(s) =~= b);
}

/// The MLS identity of this client, as plain values.
pub struct MlsIdentityView {
    pub identity: Seq<u8>,
    pub signing_key: Seq<u8>,
    pub data_dir: Seq<char>,
}

/// The MLS identity of this client: its serialized signing identity, its
/// signing key, and the directory that holds them and the group state.
pub struct MlsManager {
    identity_bytes: Vec<u8>,
    signing_key_bytes: Vec<u8>,
    data_dir: String,
}

impl View for MlsManager {
    type V = MlsIdentityView;

    closed spec fn view(&self) -> MlsIdentityView {
        MlsIdentityView {
            identity: self.identity_bytes@,
            signing_key: self.signing_key_bytes@,
            data_dir: self.data_dir@,
        }
    }
}

impl MlsManager {
    /// An identity from its stored parts.
    pub fn from_parts(identity_bytes: Vec<u8>, signing_key_bytes: Vec<u8>, data_dir: String) -> (m:
        Self)
        ensures
            m@.identity == identity_bytes@,
            m@.signing_key == signing_key_bytes@,
            m@.data_dir == data_dir@,
    {
        MlsManager { identity_bytes, signing_key_bytes, data_dir }
    }

    /// The data directory.
    pub fn data_dir(&self) -> (r: &str)
        ensures
            r@ == self@.data_dir,
    {
        self.data_dir.as_str()
    }

    /// The serialized signing identity.
    pub fn identity_bytes(&self) -> (r: &[u8])
        ensures
            r@ == self@.identity,
    {
        self.identity_bytes.as_slice()
    }

    /// The signing key.
    pub fn signing_key_bytes(&self) -> (r: &[u8])
        ensures
            r@ == self@.signing_key,
    {
        self.signing_key_bytes.as_slice()
    }
}

/// The file of the serialized signing identity, under the data directory.
pub fn identity_file() -> (r: &'static str)
    ensures
        r@ == "mls_identity.bin"@,
{
    "mls_identity.bin"
}

/// The file of the signing key, under the data directory.
pub fn signing_key_file() -> (r: &'static str)
    ensures
        r@ == "mls_signing_key.bin"@,
{
    "mls_signing_key.bin"
}

/// The group state database, under the data directory.
pub fn state_db_file() -> (r: &'static str)
    ensures
        r@ == "mls_state.db"@,
{
    "mls_state.db"
}

/// The files that wiping the local MLS state removes: the identity, the
/// signing key, the group state database and its write-ahead log and shared
/// memory files.
pub fn local_state_files() -> (r: Vec<&'static str>)
    ensures
        r@.len() == 5,
        r@[0]@ == "mls_identity.bin"@,
        r@[1]@ == "mls_signing_key.bin"@,
        r@[2]@ == "mls_state.db"@,
        r@[3]@ == "mls_state.db-wal"@,
        r@[4]@ == "mls_state.db-shm"@,
{
    vec![identity_file(), signing_key_file(), state_db_file(), "mls_state.db-wal", "mls_state.db-shm"]
}

} // verus!

//! Server addresses as the client talks to them.

use vstd::prelude::*;

use crate::text::{chars_of, push_str, starts_with_spec, starts_with_str, string_from_chars, trim_end_char, trim_end_char_spec};

verus! {

/// Whether the address names its scheme (`http://` or `https://`).
pub open spec fn has_scheme(url: Seq<char>) -> bool {
    starts_with_spec(url, "http://"@) || starts_with_spec(url, "https://"@)
}

/// A server address with `https://` put in front when it is non-empty and
/// names no scheme, and with trailing slashes removed.
pub open spec fn normalize_url_spec(url: Seq<char>) -> Seq<char> {
    let full = if url.len() > 0 && !has_scheme(url) {
        "https://"@ + url
    } else {
        url
    };
    trim_end_char_spec(full, '/')
}

/// Normalize a server URL by prepending `https://` if no scheme is present
/// and stripping any trailing slash.
pub fn normalize_server_url(url: &str) -> (r: String)
    ensures
        r@ == normalize_url_spec(url@),
{
    let chars = chars_of(url);
    let full = if chars.len() > 0 && !starts_with_str(chars.as_slice(), "http://")
        && !starts_with_str(chars.as_slice(), "https://") {
        let mut v: Vec<char> = Vec::new();
        push_str(&mut v, "https://");
        push_str(&mut v, url);
        v
    } else {
        chars
    };
    let trimmed = trim_end_char(full.as_slice(), '/');
    string_from_chars(trimmed.as_slice())
}

proof fn lemma_trim_end_char_props(s: Seq<char>, c: char)
    ensures
        trim_end_char_spec(s, c).len() <= s.len(),
        trim_end_char_spec(s, c) == s.take(trim_end_char_spec(s, c).len() as int),
        trim_end_char_spec(s, c).len() > 0 ==> trim_end_char_spec(s, c).last() != c,
    decreases s.len(),
{
    if s.len() > 0 && s.last() == c {
        lemma_trim_end_char_props(s.drop_last(), c);
        let t = trim_end_char_spec(s.drop_last(), c);
        assert(s.drop_last().take(t.len() as int) =~= s.take(t.len() as int));
    } else {
        assert(s.take(s.len() as int) =~= s);
    }
}

/// A normalized address never ends with a slash.
pub proof fn lemma_normalized_has_no_trailing_slash(url: Seq<char>)
    ensures
        normalize_url_spec(url).len() > 0 ==> normalize_url_spec(url).last() != '/',
{
    let full = if url.len() > 0 && !has_scheme(url) {
        "https://"@ + url
    } else {
        url
    };
    lemma_trim_end_char_props(full, '/');
}

/// An address that names its scheme and does not end with a slash is left
/// as it is.
pub proof fn lemma_normalize_keeps_normal(url: Seq<char>)
    requires
        has_scheme(url),
        url.len() > 0 ==> url.last() != '/',
    ensures
        normalize_url_spec(url) == url,
{
    reveal_strlit("http://");
    reveal_strlit("https://");
}

/// Normalizing a normalized address changes nothing, unless the trailing
/// slashes that were removed were part of the scheme itself (as for
/// `https:///`).
pub proof fn lemma_normalize_idempotent(url: Seq<char>)
    requires
        has_scheme(normalize_url_spec(url)) || normalize_url_spec(url).len() == 0,
    ensures
        normalize_url_spec(normalize_url_spec(url)) == normalize_url_spec(url),
{
    lemma_normalized_has_no_trailing_slash(url);
    let r = normalize_url_spec(url);
    if r.len() > 0 {
        lemma_normalize_keeps_normal(r);
    }
}

/// An address without a scheme is reached over `https`: its normalized form
/// starts with `https://` followed by the address, trailing slashes aside.
pub proof fn lemma_normalize_defaults_to_https(url: Seq<char>)
    requires
        url.len() > 0,
        !has_scheme(url),
        url.last() != '/',
    ensures
        normalize_url_spec(url) == "https://"@ + url,
{
    reveal_strlit("https://");
}

} // verus!

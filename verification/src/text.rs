//! Character-level text primitives shared by the parsers and formatters.
//!
//! Strings are handled as sequences of `char` (the view of `str` and
//! `String`). Every operation here is specified over `Seq<char>`.

use vstd::prelude::*;

verus! {

// ── Conversions between strings and character vectors ────────────────

/// The characters of `s`, in order.
pub fn chars_of(s: &str) -> (v: Vec<char>)
    ensures
        v@ == s@,
{
    let mut v: Vec<char> = Vec::new();
    for c in it: s.chars()
        invariant
            v@ == it.seq().take(it.index() as int),
            it.seq() == s@,
    {
        v.push(c);
    }
    v
}

/// Builds a `String` holding exactly the given characters
/// (`String::from_iter` over the slice).
#[verifier::external_body]
pub(crate) fn string_from_chars(v: &[char]) -> (s: String)
    ensures
        s@ == v@,
{
    String::from_iter(v.iter())
}

/// Compares two string slices for equality (`<str as PartialEq>::eq`):
/// true exactly when they hold the same characters.
#[verifier::external_body]
pub(crate) fn str_eq(a: &str, b: &str) -> (r: bool)
    ensures
        r == (a@ == b@),
{
    a == b
}

/// An owned copy of a string slice.
pub fn owned(s: &str) -> (r: String)
    ensures
        r@ == s@,
{
    s.to_owned()
}

/// Equality of two character sequences.
pub fn chars_eq(a: &[char], b: &[char]) -> (r: bool)
    ensures
        r == (a@ == b@),
{
    if a.len() != b.len() {
        return false;
    }
    let mut i: usize = 0;
    while i < a.len()
        invariant
            a@.len() == b@.len(),
            i <= a@.len(),
            forall|j: int| 0 <= j < i ==> a@[j] == b@[j],
        decreases a@.len() - i,
    {
        if a[i] != b[i] {
            return false;
        }
        i = i + 1;
    }
    assert(a@ =~= b@);
    true
}

/// Whether `s` equals the string literal (or slice) `lit`.
pub fn chars_eq_str(s: &[char], lit: &str) -> (r: bool)
    ensures
        r == (s@ == lit@),
{
    let l = chars_of(lit);
    chars_eq(s, l.as_slice())
}

/// Appends all characters of `s` to `out`.
pub fn push_all(out: &mut Vec<char>, s: &[char])
    ensures
        final(out)@ == old(out)@ + s@,
{
    let ghost start = out@;
    let mut i: usize = 0;
    while i < s.len()
        invariant
            i <= s@.len(),
            out@ == start + s@.take(i as int),
        decreases s@.len() - i,
    {
        out.push(s[i]);
        i = i + 1;
        assert(out@ =~= start + s@.take(i as int));
    }
    assert(s@.take(s@.len() as int) =~= s@);
}

/// Appends all characters of the string slice `s` to `out`.
pub fn push_str(out: &mut Vec<char>, s: &str)
    ensures
        final(out)@ == old(out)@ + s@,
{
    let c = chars_of(s);
    push_all(out, c.as_slice());
}

/// The subsequence `s[from..to]` as a new vector.
pub fn slice_chars(s: &[char], from: usize, to: usize) -> (r: Vec<char>)
    requires
        from <= to <= s@.len(),
    ensures
        r@ == s@.subrange(from as int, to as int),
{
    let mut r: Vec<char> = Vec::new();
    let mut i: usize = from;
    while i < to
        invariant
            from <= i <= to,
            to <= s@.len(),
            r@ == s@.subrange(from as int, i as int),
        decreases to - i,
    {
        r.push(s[i]);
        i = i + 1;
        assert(r@ =~= s@.subrange(from as int, i as int));
    }
    r
}

// ── Prefixes ──────────────────────────────────────────────────────────

/// `p` is a prefix of `s`.
pub open spec fn starts_with_spec(s: Seq<char>, p: Seq<char>) -> bool {
    p.len() <= s.len() && s.take(p.len() as int) == p
}

/// Whether the characters `s` begin with `p`.
pub fn starts_with(s: &[char], p: &[char]) -> (r: bool)
    ensures
        r == starts_with_spec(s@, p@),
{
    if p.len() > s.len() {
        return false;
    }
    let mut i: usize = 0;
    while i < p.len()
        invariant
            p@.len() <= s@.len(),
            i <= p@.len(),
            forall|j: int| 0 <= j < i ==> s@[j] == p@[j],
        decreases p@.len() - i,
    {
        if s[i] != p[i] {
            assert(s@.take(p@.len() as int)[i as int] != p@[i as int]);
            return false;
        }
        i = i + 1;
    }
    assert(s@.take(p@.len() as int) =~= p@);
    true
}

/// Whether the characters `s` begin with the string slice `p`.
pub fn starts_with_str(s: &[char], p: &str) -> (r: bool)
    ensures
        r == starts_with_spec(s@, p@),
{
    let pc = chars_of(p);
    starts_with(s, pc.as_slice())
}

// ── Unicode properties ────────────────────────────────────────────────

/// The Unicode `White_Space` property, which `char::is_whitespace` and
/// `str::trim` use: U+0009..U+000D, U+0020, U+0085, U+00A0, U+1680,
/// U+2000..U+200A, U+2028, U+2029, U+202F, U+205F and U+3000.
pub open spec fn is_whitespace_spec(c: char) -> bool {
    let n = c as u32;
    ||| 0x09 <= n <= 0x0d
    ||| n == 0x20
    ||| n == 0x85
    ||| n == 0xa0
    ||| n == 0x1680
    ||| 0x2000 <= n <= 0x200a
    ||| n == 0x2028
    ||| n == 0x2029
    ||| n == 0x202f
    ||| n == 0x205f
    ||| n == 0x3000
}

/// Whether `c` has the Unicode `White_Space` property.
pub fn is_whitespace(c: char) -> (r: bool)
    ensures
        r == is_whitespace_spec(c),
{
    let n = c as u32;
    (0x09 <= n && n <= 0x0d) || n == 0x20 || n == 0x85 || n == 0xa0 || n == 0x1680 || (0x2000
        <= n && n <= 0x200a) || n == 0x2028 || n == 0x2029 || n == 0x202f || n == 0x205f || n
        == 0x3000
}

/// What `char::is_alphanumeric` returns for a character (the Unicode
/// `Alphabetic` or `Numeric` property).
pub uninterp spec fn spec_char_is_alphanumeric(c: char) -> bool;

/// An ASCII digit or letter.
pub open spec fn ascii_alphanumeric(c: char) -> bool {
    ('0' <= c <= '9') || ('A' <= c <= 'Z') || ('a' <= c <= 'z')
}

/// `char::is_alphanumeric`: the result is the named property of the
/// character. Stated besides: among ASCII characters exactly the digits
/// and the letters have it (the Unicode `Alphabetic` and `Numeric`
/// properties that the documentation names hold of no other ASCII
/// character).
#[verifier::external_body]
pub(crate) fn char_is_alphanumeric(c: char) -> (r: bool)
    ensures
        r == spec_char_is_alphanumeric(c),
        c <= '\u{7f}' ==> r == ascii_alphanumeric(c),
{
    c.is_alphanumeric()
}

/// What `str::to_lowercase` returns for a string (full Unicode lowercase
/// mapping).
pub uninterp spec fn spec_to_lowercase(s: Seq<char>) -> Seq<char>;

/// The lowercase of an ASCII character: `A` to `Z` become `a` to `z`, every
/// other character stays.
pub open spec fn ascii_lower(c: char) -> char {
    if 'A' <= c <= 'Z' {
        ((c as u32) + 32) as char
    } else {
        c
    }
}

/// `str::to_lowercase`: the result is the named lowercase mapping of the
/// characters. Stated besides: on ASCII text it lowers `A` to `Z` and keeps
/// every other character (the Unicode lowercase mapping that the
/// documentation names, restricted to ASCII).
#[verifier::external_body]
pub(crate) fn to_lowercase(s: &str) -> (r: String)
    ensures
        r@ == spec_to_lowercase(s@),
        vstd::utf8::is_ascii_chars(s@) ==> r@ == s@.map_values(|c: char| ascii_lower(c)),
{
    s.to_lowercase()
}

/// The lowercase mapping of a character sequence, as characters.
pub fn lowercase_chars(s: &[char]) -> (r: Vec<char>)
    ensures
        r@ == spec_to_lowercase(s@),
        vstd::utf8::is_ascii_chars(s@) ==> r@ == s@.map_values(|c: char| ascii_lower(c)),
{
    let st = string_from_chars(s);
    let low = to_lowercase(st.as_str());
    chars_of(low.as_str())
}

// ── Trimming ──────────────────────────────────────────────────────────

/// `s` without its leading whitespace.
pub open spec fn trim_start_spec(s: Seq<char>) -> Seq<char>
    decreases s.len(),
{
    if s.len() > 0 && is_whitespace_spec(s[0]) {
        trim_start_spec(s.drop_first())
    } else {
        s
    }
}

/// `s` without its trailing whitespace.
pub open spec fn trim_end_spec(s: Seq<char>) -> Seq<char>
    decreases s.len(),
{
    if s.len() > 0 && is_whitespace_spec(s.last()) {
        trim_end_spec(s.drop_last())
    } else {
        s
    }
}

/// `s` without leading and trailing whitespace (`str::trim`).
pub open spec fn trim_spec(s: Seq<char>) -> Seq<char> {
    trim_end_spec(trim_start_spec(s))
}

proof fn lemma_trim_start_skip(s: Seq<char>, i: int)
    requires
        0 <= i <= s.len(),
        forall|j: int| 0 <= j < i ==> is_whitespace_spec(s[j]),
    ensures
        trim_start_spec(s) == trim_start_spec(s.skip(i)),
    decreases i,
{
    if i > 0 {
        assert(s.skip(1) =~= s.drop_first());
        lemma_trim_start_skip(s.drop_first(), i - 1);
        assert(s.drop_first().skip(i - 1) =~= s.skip(i));
    } else {
        assert(s.skip(0) =~= s);
    }
}

proof fn lemma_trim_end_take(s: Seq<char>, k: int)
    requires
        0 <= k <= s.len(),
        forall|j: int| k <= j < s.len() ==> is_whitespace_spec(s[j]),
    ensures
        trim_end_spec(s) == trim_end_spec(s.take(k)),
    decreases s.len() - k,
{
    if k < s.len() {
        assert(s.take(s.len() - 1) =~= s.drop_last());
        lemma_trim_end_take(s.drop_last(), k);
        assert(s.drop_last().take(k) =~= s.take(k));
    } else {
        assert(s.take(k) =~= s);
    }
}

/// The characters of `s` without leading and trailing whitespace.
pub fn trim(s: &[char]) -> (r: Vec<char>)
    ensures
        r@ == trim_spec(s@),
{
    let mut start: usize = 0;
    while start < s.len() && is_whitespace(s[start])
        invariant
            start <= s@.len(),
            forall|j: int| 0 <= j < start ==> is_whitespace_spec(s@[j]),
        decreases s@.len() - start,
    {
        start = start + 1;
    }
    proof {
        lemma_trim_start_skip(s@, start as int);
    }
    let ghost t = s@.skip(start as int);
    assert(trim_start_spec(t) == t);
    let mut end: usize = s.len();
    while end > start && is_whitespace(s[end - 1])
        invariant
            start <= end <= s@.len(),
            forall|j: int| end <= j < s@.len() ==> is_whitespace_spec(s@[j]),
        decreases end,
    {
        end = end - 1;
    }
    proof {
        lemma_trim_end_take(t, end - start);
        assert(t.take(end - start) =~= s@.subrange(start as int, end as int));
    }
    slice_chars(s, start, end)
}

/// `s` without any trailing occurrences of `c` (`str::trim_end_matches`).
pub open spec fn trim_end_char_spec(s: Seq<char>, c: char) -> Seq<char>
    decreases s.len(),
{
    if s.len() > 0 && s.last() == c {
        trim_end_char_spec(s.drop_last(), c)
    } else {
        s
    }
}

proof fn lemma_trim_end_char_take(s: Seq<char>, c: char, k: int)
    requires
        0 <= k <= s.len(),
        forall|j: int| k <= j < s.len() ==> s[j] == c,
    ensures
        trim_end_char_spec(s, c) == trim_end_char_spec(s.take(k), c),
    decreases s.len() - k,
{
    if k < s.len() {
        assert(s.take(s.len() - 1) =~= s.drop_last());
        lemma_trim_end_char_take(s.drop_last(), c, k);
        assert(s.drop_last().take(k) =~= s.take(k));
    } else {
        assert(s.take(k) =~= s);
    }
}

/// The characters of `s` without trailing occurrences of `c`.
pub fn trim_end_char(s: &[char], c: char) -> (r: Vec<char>)
    ensures
        r@ == trim_end_char_spec(s@, c),
{
    let mut end: usize = s.len();
    while end > 0 && s[end - 1] == c
        invariant
            end <= s@.len(),
            forall|j: int| end <= j < s@.len() ==> s@[j] == c,
        decreases end,
    {
        end = end - 1;
    }
    proof {
        lemma_trim_end_char_take(s@, c, end as int);
        assert(s@.take(end as int) =~= s@.subrange(0, end as int));
    }
    slice_chars(s, 0, end)
}

// ── Splitting ─────────────────────────────────────────────────────────

/// The pieces of `s` between occurrences of `sep` (`str::split`): one more
/// piece than there are separators.
pub open spec fn split_spec(s: Seq<char>, sep: char) -> Seq<Seq<char>>
    decreases s.len(),
{
    if s.len() == 0 {
        seq![Seq::<char>::empty()]
    } else {
        let rest = split_spec(s.drop_first(), sep);
        if s[0] == sep {
            seq![Seq::<char>::empty()] + rest
        } else {
            rest.update(0, seq![s[0]] + rest[0])
        }
    }
}

/// At most `n` pieces of `s` between occurrences of `sep` (`str::splitn`):
/// the last piece holds the unsplit remainder.
pub open spec fn splitn_spec(s: Seq<char>, n: nat, sep: char) -> Seq<Seq<char>>
    decreases s.len(),
{
    if n == 0 {
        Seq::<Seq<char>>::empty()
    } else if n == 1 {
        seq![s]
    } else if s.len() == 0 {
        seq![Seq::<char>::empty()]
    } else {
        if s[0] == sep {
            seq![Seq::<char>::empty()] + splitn_spec(s.drop_first(), (n - 1) as nat, sep)
        } else {
            let rest = splitn_spec(s.drop_first(), n, sep);
            rest.update(0, seq![s[0]] + rest[0])
        }
    }
}

/// Splitting always gives at least one piece.
pub proof fn lemma_split_nonempty(s: Seq<char>, sep: char)
    ensures
        split_spec(s, sep).len() >= 1,
    decreases s.len(),
{
    if s.len() > 0 {
        lemma_split_nonempty(s.drop_first(), sep);
    }
}

/// A split into at most `n` pieces gives between one and `n` pieces.
pub proof fn lemma_splitn_len(s: Seq<char>, n: nat, sep: char)
    requires
        n >= 1,
    ensures
        1 <= splitn_spec(s, n, sep).len() <= n,
    decreases s.len(),
{
    if n >= 2 && s.len() > 0 {
        if s[0] == sep {
            lemma_splitn_len(s.drop_first(), (n - 1) as nat, sep);
        } else {
            lemma_splitn_len(s.drop_first(), n, sep);
        }
    }
}

/// The index of the first occurrence of `sep` in `s`, or `s.len()` when
/// there is none.
pub open spec fn first_index(s: Seq<char>, sep: char) -> nat
    decreases s.len(),
{
    if s.len() == 0 {
        0
    } else if s[0] == sep {
        0
    } else {
        first_index(s.drop_first(), sep) + 1
    }
}

/// The first piece of a split with room for more pieces is the text before
/// the first separator; a second piece exists exactly when there is a
/// separator, and the remaining pieces split the text after it.
pub proof fn lemma_splitn_head(s: Seq<char>, n: nat, sep: char)
    requires
        n >= 2,
    ensures
        ({
            let p = splitn_spec(s, n, sep);
            let k = first_index(s, sep);
            &&& k <= s.len()
            &&& p.len() >= 1
            &&& p[0] == s.take(k as int)
            &&& forall|j: int| 0 <= j < k ==> s[j] != sep
            &&& (p.len() >= 2) == (k < s.len())
            &&& k < s.len() ==> s[k as int] == sep && p.skip(1) == splitn_spec(
                s.skip(k + 1int),
                (n - 1) as nat,
                sep,
            )
        }),
    decreases s.len(),
{
    let p = splitn_spec(s, n, sep);
    if s.len() == 0 {
        assert(s.take(0) =~= s);
    } else if s[0] == sep {
        lemma_splitn_len(s.drop_first(), (n - 1) as nat, sep);
        assert(s.take(0) =~= Seq::<char>::empty());
        assert(s.skip(1) =~= s.drop_first());
        assert(p.skip(1) =~= splitn_spec(s.drop_first(), (n - 1) as nat, sep));
    } else {
        let t = s.drop_first();
        lemma_splitn_head(t, n, sep);
        let rest = splitn_spec(t, n, sep);
        let k = first_index(t, sep);
        assert(p[0] == seq![s[0]] + rest[0]);
        assert(s.take(k + 1int) =~= seq![s[0]] + t.take(k as int));
        assert forall|j: int| 0 <= j < k + 1 implies s[j] != sep by {
            if j > 0 {
                assert(s[j] == t[j - 1]);
            }
        }
        if k < t.len() {
            assert(t.skip(k + 1int) =~= s.skip(k + 2int));
            assert(p.skip(1) =~= rest.skip(1));
        }
    }
}

/// Splitting a word followed by the separator gives the word, then the
/// split of the rest with one piece less.
pub proof fn lemma_splitn_word(a: Seq<char>, rest: Seq<char>, n: nat, sep: char)
    requires
        n >= 2,
        forall|k: int| 0 <= k < a.len() ==> a[k] != sep,
    ensures
        splitn_spec(a + seq![sep] + rest, n, sep) == seq![a] + splitn_spec(rest, (n - 1) as nat, sep),
    decreases a.len(),
{
    let s = a + seq![sep] + rest;
    if a.len() == 0 {
        assert(s.drop_first() =~= rest);
        assert(a =~= Seq::<char>::empty());
    } else {
        assert(s[0] == a[0]);
        assert(s.drop_first() =~= a.drop_first() + seq![sep] + rest);
        lemma_splitn_word(a.drop_first(), rest, n, sep);
        let r = splitn_spec(s.drop_first(), n, sep);
        assert(r[0] == a.drop_first());
        assert(seq![s[0]] + r[0] =~= a);
        assert(r.update(0, seq![s[0]] + r[0]) =~= seq![a] + splitn_spec(rest, (n - 1) as nat, sep));
    }
}

/// The views of a sequence of character vectors.
pub open spec fn views(v: Seq<Vec<char>>) -> Seq<Seq<char>> {
    v.map_values(|p: Vec<char>| p@)
}

/// Splits `s` at occurrences of `sep` into at most `n` pieces.
pub fn splitn(s: &[char], n: usize, sep: char) -> (r: Vec<Vec<char>>)
    requires
        n >= 1,
    ensures
        views(r@) == splitn_spec(s@, n as nat, sep),
{
    let mut pieces: Vec<Vec<char>> = Vec::new();
    let mut cur: Vec<char> = Vec::new();
    let mut i: usize = 0;
    proof {
        lemma_splitn_len(s@, n as nat, sep);
        assert(s@.skip(0) =~= s@);
    }
    while i < s.len()
        invariant
            n >= 1,
            i <= s@.len(),
            pieces@.len() < n,
            ({
                let rest = splitn_spec(s@.skip(i as int), (n - pieces@.len()) as nat, sep);
                &&& rest.len() >= 1
                &&& splitn_spec(s@, n as nat, sep) == views(pieces@) + seq![cur@ + rest[0]]
                    + rest.skip(1)
            }),
        decreases s@.len() - i,
    {
        let ghost k = (n - pieces@.len()) as nat;
        let ghost t = s@.skip(i as int);
        let ghost rest = splitn_spec(t, k, sep);
        assert(t.drop_first() =~= s@.skip(i + 1));
        let c = s[i];
        if c == sep && pieces.len() + 1 < n {
            let ghost next = splitn_spec(t.drop_first(), (k - 1) as nat, sep);
            proof {
                lemma_splitn_len(t.drop_first(), (k - 1) as nat, sep);
            }
            assert(rest == seq![Seq::<char>::empty()] + next);
            let ghost old_pieces = views(pieces@);
            let ghost old_cur = cur@;
            pieces.push(cur);
            cur = Vec::new();
            proof {
                assert(views(pieces@) =~= old_pieces + seq![old_cur]);
                assert(rest[0] =~= Seq::<char>::empty());
                assert(old_cur + rest[0] =~= old_cur);
                assert(rest.skip(1) =~= next);
                assert(cur@ + next[0] =~= next[0]);
                assert(next =~= seq![next[0]] + next.skip(1));
                assert(splitn_spec(s@, n as nat, sep) =~= views(pieces@) + seq![cur@ + next[0]]
                    + next.skip(1));
            }
        } else {
            let ghost next = splitn_spec(t.drop_first(), k, sep);
            proof {
                if k == 1 {
                    assert(rest == seq![t]);
                    assert(next == seq![t.drop_first()]);
                    assert(seq![c] + t.drop_first() =~= t);
                } else {
                    lemma_splitn_len(t.drop_first(), k, sep);
                    assert(rest == next.update(0, seq![c] + next[0]));
                }
            }
            let ghost old_cur = cur@;
            cur.push(c);
            proof {
                assert(old_cur + rest[0] =~= cur@ + next[0]);
                assert(rest.skip(1) =~= next.skip(1));
            }
        }
        i = i + 1;
    }
    proof {
        let k = (n - pieces@.len()) as nat;
        assert(s@.skip(i as int) =~= Seq::<char>::empty());
        assert(cur@ + Seq::<char>::empty() =~= cur@);
    }
    let ghost before = views(pieces@);
    pieces.push(cur);
    proof {
        assert(views(pieces@) =~= splitn_spec(s@, n as nat, sep));
    }
    pieces
}

/// Splits `s` at every occurrence of `sep`.
pub fn split(s: &[char], sep: char) -> (r: Vec<Vec<char>>)
    ensures
        views(r@) == split_spec(s@, sep),
{
    let mut pieces: Vec<Vec<char>> = Vec::new();
    let mut cur: Vec<char> = Vec::new();
    let mut i: usize = 0;
    proof {
        lemma_split_nonempty(s@, sep);
        assert(s@.skip(0) =~= s@);
    }
    while i < s.len()
        invariant
            i <= s@.len(),
            ({
                let rest = split_spec(s@.skip(i as int), sep);
                &&& rest.len() >= 1
                &&& split_spec(s@, sep) == views(pieces@) + seq![cur@ + rest[0]] + rest.skip(1)
            }),
        decreases s@.len() - i,
    {
        let ghost t = s@.skip(i as int);
        let ghost rest = split_spec(t, sep);
        assert(t.drop_first() =~= s@.skip(i + 1));
        let ghost next = split_spec(t.drop_first(), sep);
        proof {
            lemma_split_nonempty(t.drop_first(), sep);
        }
        let c = s[i];
        if c == sep {
            let ghost old_pieces = views(pieces@);
            let ghost old_cur = cur@;
            pieces.push(cur);
            cur = Vec::new();
            proof {
                assert(views(pieces@) =~= old_pieces + seq![old_cur]);
                assert(old_cur + rest[0] =~= old_cur);
                assert(rest.skip(1) =~= next);
                assert(next =~= seq![next[0]] + next.skip(1));
                assert(split_spec(s@, sep) =~= views(pieces@) + seq![cur@ + next[0]] + next.skip(
                    1,
                ));
            }
        } else {
            let ghost old_cur = cur@;
            cur.push(c);
            proof {
                assert(old_cur + rest[0] =~= cur@ + next[0]);
                assert(rest.skip(1) =~= next.skip(1));
            }
        }
        i = i + 1;
    }
    proof {
        assert(s@.skip(i as int) =~= Seq::<char>::empty());
        assert(cur@ + Seq::<char>::empty() =~= cur@);
    }
    pieces.push(cur);
    proof {
        assert(views(pieces@) =~= split_spec(s@, sep));
    }
    pieces
}

// ── Decimal numbers ───────────────────────────────────────────────────

/// The ASCII digit for `d` (`0 <= d < 10`).
pub open spec fn digit_char(d: nat) -> char {
    ((d + 48) as u8) as char
}

/// The decimal digits of `n`, most significant first, without leading zeros
/// (`0` is written `"0"`).
pub open spec fn decimal_spec(n: nat) -> Seq<char>
    decreases n,
{
    if n < 10 {
        seq![digit_char(n)]
    } else {
        decimal_spec(n / 10) + seq![digit_char(n % 10)]
    }
}

/// The decimal text of an integer: a `-` sign before the digits of a
/// negative value (as `{}` formatting writes it).
pub open spec fn int_text(n: int) -> Seq<char> {
    if n < 0 {
        seq!['-'] + decimal_spec((-n) as nat)
    } else {
        decimal_spec(n as nat)
    }
}

/// The decimal digits of `n`.
pub fn u64_to_chars(n: u64) -> (r: Vec<char>)
    ensures
        r@ == decimal_spec(n as nat),
    decreases n,
{
    if n < 10 {
        let mut r: Vec<char> = Vec::new();
        r.push(((n as u8) + 48) as char);
        proof {
            assert(r@ =~= seq![digit_char(n as nat)]);
        }
        r
    } else {
        let mut r = u64_to_chars(n / 10);
        let d = n % 10;
        r.push(((d as u8) + 48) as char);
        proof {
            assert(r@ =~= decimal_spec((n / 10) as nat) + seq![digit_char((n % 10) as nat)]);
        }
        r
    }
}

/// The decimal text of `n`.
pub fn i64_to_chars(n: i64) -> (r: Vec<char>)
    ensures
        r@ == int_text(n as int),
{
    if n < 0 {
        let mag: u64 = if n == i64::MIN {
            9223372036854775808u64
        } else {
            (-n) as u64
        };
        let digits = u64_to_chars(mag);
        let mut r: Vec<char> = Vec::new();
        r.push('-');
        push_all(&mut r, digits.as_slice());
        proof {
            assert(r@ =~= seq!['-'] + decimal_spec((-(n as int)) as nat));
        }
        r
    } else {
        u64_to_chars(n as u64)
    }
}

/// Whether `c` is an ASCII decimal digit.
pub open spec fn is_digit_spec(c: char) -> bool {
    '0' <= c <= '9'
}

/// The value of a string of ASCII decimal digits.
pub open spec fn digits_value(s: Seq<char>) -> nat
    decreases s.len(),
{
    if s.len() == 0 {
        0
    } else {
        digits_value(s.drop_last()) * 10 + ((s.last() as u32) - 48) as nat
    }
}

/// Whether every character of `s` is an ASCII decimal digit.
pub open spec fn all_digits(s: Seq<char>) -> bool {
    forall|j: int| 0 <= j < s.len() ==> is_digit_spec(#[trigger] s[j])
}

/// Whether `s` starts with a `+` or `-` sign.
pub open spec fn has_sign(s: Seq<char>) -> bool {
    s.len() > 0 && (s[0] == '-' || s[0] == '+')
}

/// The characters of `s` after an optional leading sign.
pub open spec fn unsigned_part(s: Seq<char>) -> Seq<char> {
    if has_sign(s) {
        s.drop_first()
    } else {
        s
    }
}

/// What `str::parse::<i64>` yields: an optional `+` or `-` sign followed by
/// at least one ASCII digit, and a value within the range of `i64`.
pub open spec fn parse_i64_spec(s: Seq<char>) -> Option<i64> {
    let ds = unsigned_part(s);
    if ds.len() == 0 || !all_digits(ds) {
        None
    } else {
        let v: int = if s[0] == '-' {
            -(digits_value(ds) as int)
        } else {
            digits_value(ds) as int
        };
        if i64::MIN <= v <= i64::MAX {
            Some(v as i64)
        } else {
            None
        }
    }
}

proof fn lemma_digits_value_prefix(s: Seq<char>, k: int)
    requires
        0 <= k <= s.len(),
    ensures
        digits_value(s.take(k)) <= digits_value(s),
    decreases s.len() - k,
{
    if k < s.len() {
        assert(s.take(s.len() - 1) =~= s.drop_last());
        lemma_digits_value_prefix(s.drop_last(), k);
        assert(s.drop_last().take(k) =~= s.take(k));
    } else {
        assert(s.take(k) =~= s);
    }
}

/// Whether all characters of `s` from index `start` on are ASCII digits.
fn digits_from(s: &[char], start: usize) -> (r: bool)
    requires
        start <= s@.len(),
    ensures
        r == all_digits(s@.skip(start as int)),
{
    let mut i: usize = start;
    while i < s.len()
        invariant
            start <= i <= s@.len(),
            forall|j: int| start <= j < i ==> is_digit_spec(#[trigger] s@[j]),
        decreases s@.len() - i,
    {
        if !('0' <= s[i] && s[i] <= '9') {
            assert(s@.skip(start as int)[i - start] == s@[i as int]);
            return false;
        }
        i = i + 1;
    }
    assert forall|j: int| 0 <= j < s@.skip(start as int).len() implies is_digit_spec(
        #[trigger] s@.skip(start as int)[j],
    ) by {
        assert(s@.skip(start as int)[j] == s@[j + start]);
    }
    true
}

/// The value of the digits `s[start..]`, or `None` when it exceeds `limit`.
fn digits_value_upto(s: &[char], start: usize, limit: u64) -> (r: Option<u64>)
    requires
        start <= s@.len(),
        all_digits(s@.skip(start as int)),
        limit <= 9223372036854775808u64,
        limit >= 9,
    ensures
        match r {
            Some(v) => v as nat == digits_value(s@.skip(start as int)) && v <= limit,
            None => digits_value(s@.skip(start as int)) > limit,
        },
{
    let ghost ds = s@.skip(start as int);
    let mut acc: u64 = 0;
    let mut i: usize = start;
    while i < s.len()
        invariant
            start <= i <= s@.len(),
            ds == s@.skip(start as int),
            all_digits(ds),
            9 <= limit <= 9223372036854775808u64,
            acc as nat == digits_value(ds.take(i - start)),
            acc <= limit,
        decreases s@.len() - i,
    {
        let c = s[i];
        assert(ds[i - start] == c);
        assert(is_digit_spec(ds[i - start]));
        assert(48 <= c as u32 <= 57);
        let d = (c as u32 - 48) as u64;
        assert(ds.take(i - start + 1).drop_last() =~= ds.take(i - start));
        assert(ds.take(i - start + 1).last() == c);
        assert(digits_value(ds.take(i - start + 1)) == acc * 10 + d);
        if acc > (limit - d) / 10 {
            proof {
                assert(acc * 10 + d > limit) by (nonlinear_arith)
                    requires
                        acc > (limit - d) / 10,
                        d <= 9,
                        d <= limit,
                ;
                lemma_digits_value_prefix(ds, i - start + 1);
            }
            return None;
        }
        assert(acc * 10 + d <= limit) by (nonlinear_arith)
            requires
                acc <= (limit - d) / 10,
                d <= 9,
                d <= limit,
        ;
        acc = acc * 10 + d;
        i = i + 1;
    }
    assert(ds.take(ds.len() as int) =~= ds);
    Some(acc)
}

/// Parses a decimal `i64` as `str::parse::<i64>` does.
pub fn parse_i64(s: &[char]) -> (r: Option<i64>)
    ensures
        r == parse_i64_spec(s@),
{
    let neg = s.len() > 0 && s[0] == '-';
    let signed = s.len() > 0 && (s[0] == '-' || s[0] == '+');
    let start: usize = if signed {
        1
    } else {
        0
    };
    assert(unsigned_part(s@) =~= s@.skip(start as int));
    if start >= s.len() {
        return None;
    }
    if !digits_from(s, start) {
        return None;
    }
    let limit: u64 = if neg {
        9223372036854775808u64
    } else {
        9223372036854775807u64
    };
    match digits_value_upto(s, start, limit) {
        None => None,
        Some(acc) => {
            if neg {
                if acc == 9223372036854775808u64 {
                    Some(i64::MIN)
                } else {
                    Some(-(acc as i64))
                }
            } else {
                Some(acc as i64)
            }
        },
    }
}

} // verus!

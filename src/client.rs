//! Helpers of the chat client that do not talk to the server.
use vstd::prelude::*;
use vstd::string::StrSliceExecFns;

verus! {

/// `s` with every leading repetition of `p` removed (nothing for an empty `p`).
pub open spec fn trim_prefix_all(s: Seq<char>, p: Seq<char>) -> Seq<char>
    decreases s.len(),
{
    if p.len() > 0 && p.len() <= s.len() && s.take(p.len() as int) == p {
        trim_prefix_all(s.skip(p.len() as int), p)
    } else {
        s
    }
}

/// `s` with every trailing `c` removed.
pub open spec fn trim_suffix_all(s: Seq<char>, c: char) -> Seq<char>
    decreases s.len(),
{
    if s.len() > 0 && s.last() == c {
        trim_suffix_all(s.drop_last(), c)
    } else {
        s
    }
}

/// The server name in a homeserver URL: the URL without its leading
/// `https://` and `http://` and without trailing slashes.
pub open spec fn server_name_of(url: Seq<char>) -> Seq<char> {
    trim_suffix_all(trim_prefix_all(trim_prefix_all(url, HTTPS_SCHEME@), HTTP_SCHEME@), '/')
}

pub const HTTPS_SCHEME: &'static str = "https://";

pub const HTTP_SCHEME: &'static str = "http://";

/// Whether `p` occurs in `s` at character position `at`.
fn occurs_at(s: &str, at: usize, p: &str) -> (r: bool)
    requires
        at <= s@.len(),
    ensures
        r == (p@.len() <= s@.len() - at && s@.skip(at as int).take(p@.len() as int) == p@),
{
    let n = s.unicode_len();
    let m = p.unicode_len();
    if m > n - at {
        return false;
    }
    let mut k: usize = 0;
    while k < m
        invariant
            n == s@.len(),
            m == p@.len(),
            at <= n,
            m <= n - at,
            k <= m,
            forall|j: int| 0 <= j < k ==> s@[at + j] == p@[j],
        decreases m - k,
    {
        if s.get_char(at + k) != p.get_char(k) {
            assert(s@.skip(at as int).take(m as int)[k as int] != p@[k as int]);
            return false;
        }
        k = k + 1;
    }
    assert(s@.skip(at as int).take(m as int) =~= p@);
    true
}

/// The position after every repetition of `p` that starts at `from`.
fn skip_repeated(s: &str, from: usize, p: &str) -> (r: usize)
    requires
        from <= s@.len(),
    ensures
        from <= r <= s@.len(),
        s@.skip(r as int) == trim_prefix_all(s@.skip(from as int), p@),
{
    let n = s.unicode_len();
    let m = p.unicode_len();
    let mut at = from;
    while m > 0 && occurs_at(s, at, p)
        invariant
            n == s@.len(),
            m == p@.len(),
            from <= at <= n,
            trim_prefix_all(s@.skip(at as int), p@) == trim_prefix_all(s@.skip(from as int), p@),
        decreases n - at,
    {
        assert(s@.skip(at as int).skip(m as int) =~= s@.skip(at + m));
        at = at + m;
    }
    at
}

/// The server name of a homeserver URL, as the sign-in step looks it up.
pub fn homeserver_name(url: &str) -> (r: String)
    ensures
        r@ == server_name_of(url@),
{
    let start = skip_repeated(url, 0, HTTPS_SCHEME);
    assert(url@.skip(0) =~= url@);
    let start = skip_repeated(url, start, HTTP_SCHEME);
    let mut end = url.unicode_len();
    assert(url@.skip(start as int) =~= url@.subrange(start as int, end as int));
    while end > start && url.get_char(end - 1) == '/'
        invariant
            start <= end <= url@.len(),
            trim_suffix_all(url@.subrange(start as int, end as int), '/') == server_name_of(url@),
        decreases end,
    {
        assert(url@.subrange(start as int, end as int).drop_last() =~= url@.subrange(
            start as int,
            end - 1,
        ));
        end = end - 1;
    }
    let name = url.substring_char(start, end);
    String::from_str(name)
}

/// What `str::trim` leaves of a text.
pub uninterp spec fn trimmed_of(s: Seq<char>) -> Seq<char>;

/// What `str::to_lowercase` makes of a text.
pub uninterp spec fn lower_of(s: Seq<char>) -> Seq<char>;

/// Relies on `str::trim`: the text without leading and trailing whitespace,
/// which depends on the text alone.
#[verifier::external_body]
fn trim_whitespace<'a>(s: &'a str) -> (r: &'a str)
    ensures
        r@ == trimmed_of(s@),
{
    s.trim()
}

/// Relies on `str::to_lowercase`: the lowercase mapping of the text, which
/// depends on the text alone.
#[verifier::external_body]
fn lowercase(s: &str) -> (r: String)
    ensures
        r@ == lower_of(s@),
{
    s.to_lowercase()
}

/// The characters of `s` before its first `c`; all of `s` when it holds none.
pub open spec fn before_first(s: Seq<char>, c: char) -> Seq<char>
    decreases s.len(),
{
    if s.len() == 0 {
        s
    } else if s[0] == c {
        Seq::empty()
    } else {
        seq![s[0]] + before_first(s.skip(1), c)
    }
}

/// The local part of a user name typed as `name`, `@name` or `@name:server`.
pub open spec fn local_part(s: Seq<char>) -> Seq<char> {
    before_first(
        if s.len() > 0 && s[0] == '@' {
            s.skip(1)
        } else {
            s
        },
        ':',
    )
}

/// The user name that signs in, from the typed text once trimmed and
/// lowercased: one leading `@` is dropped and everything from the first `:`.
pub fn local_part_of(folded: &str) -> (r: String)
    ensures
        r@ == local_part(folded@),
{
    let n = folded.unicode_len();
    let start: usize = if n > 0 && folded.get_char(0) == '@' {
        1
    } else {
        0
    };
    let ghost rest = if n > 0 && folded@[0] == '@' {
        folded@.skip(1)
    } else {
        folded@
    };
    assert(rest =~= folded@.skip(start as int));
    let mut end = start;
    while end < n && folded.get_char(end) != ':'
        invariant
            n == folded@.len(),
            start <= end <= n,
            rest == folded@.skip(start as int),
            before_first(rest, ':') == folded@.subrange(start as int, end as int) + before_first(
                folded@.skip(end as int),
                ':',
            ),
        decreases n - end,
    {
        assert(folded@.skip(end as int).skip(1) =~= folded@.skip(end + 1));
        assert(folded@.subrange(start as int, end as int) + seq![folded@[end as int]] =~= folded@.subrange(
            start as int,
            end + 1,
        ));
        end = end + 1;
    }
    proof {
        assert(folded@.skip(start as int) =~= folded@.subrange(start as int, start as int) + folded@.skip(start as int));
        if end < n {
            assert(folded@.skip(end as int)[0] == ':');
        } else {
            assert(folded@.skip(end as int).len() == 0);
        }
        assert(folded@.subrange(start as int, end as int) + Seq::<char>::empty() =~= folded@.subrange(
            start as int,
            end as int,
        ));
    }
    String::from_str(folded.substring_char(start, end))
}

/// Normalises a typed user name for sign-in: trimmed, lowercased, then cut
/// to its local part.
pub fn normalize_username(raw: &str) -> (r: String)
    ensures
        r@ == local_part(lower_of(trimmed_of(raw@))),
{
    let folded = lowercase(trim_whitespace(raw));
    local_part_of(folded.as_str())
}

} // verus!

//! Filename sanitizing, URL validation against the platform allowlist, and
//! the character-level string helpers both are built on.

use vstd::prelude::*;

verus! {

/// What `char::is_alphanumeric` returns; it depends on the character alone.
pub uninterp spec fn char_is_alphanumeric(c: char) -> bool;

/// Relies on `char::is_alphanumeric`: the Unicode alphabetic-or-numeric test.
#[verifier::external_body]
fn is_alphanumeric_char(c: char) -> (r: bool)
    ensures
        r == char_is_alphanumeric(c),
{
    c.is_alphanumeric()
}

/// Relies on `String::push`: appends exactly one character at the end.
#[verifier::external_body]
fn push_char(s: &mut String, c: char)
    ensures
        final(s)@ == old(s)@.push(c),
{
    s.push(c);
}

/// A character that may appear in a sanitized filename.
pub open spec fn safe_char(c: char) -> bool {
    char_is_alphanumeric(c) || c == '-' || c == '_' || c == '.'
}

/// What the sanitizer does to one character.
pub open spec fn sanitize_char(c: char) -> char {
    if safe_char(c) {
        c
    } else {
        '_'
    }
}

/// What the sanitizer does to a whole title.
pub open spec fn sanitize_seq(s: Seq<char>) -> Seq<char> {
    s.map_values(|c: char| sanitize_char(c))
}

/// Maps an arbitrary title to a safe filesystem name: every character that is
/// not alphanumeric, `-`, `_` or `.` becomes `_`.
pub fn sanitize_filename(filename: &str) -> (r: String)
    ensures
        r@ == sanitize_seq(filename@),
{
    let n = filename.unicode_len();
    let mut out = String::new();
    let mut i: usize = 0;
    while i < n
        invariant
            i <= n,
            n == filename@.len(),
            out@ == sanitize_seq(filename@.subrange(0, i as int)),
        decreases n - i,
    {
        let c = filename.get_char(i);
        let keep = is_alphanumeric_char(c) || c == '-' || c == '_' || c == '.';
        if keep {
            push_char(&mut out, c);
        } else {
            push_char(&mut out, '_');
        }
        proof {
            assert(filename@.subrange(0, i + 1) =~= filename@.subrange(0, i as int).push(c));
            assert(sanitize_seq(filename@.subrange(0, i + 1)) =~= sanitize_seq(
                filename@.subrange(0, i as int),
            ).push(sanitize_char(c)));
        }
        i += 1;
    }
    proof {
        assert(filename@.subrange(0, n as int) =~= filename@);
    }
    out
}

/// Sanitizing is idempotent: a second pass changes nothing, because every
/// character a first pass lets through or substitutes is itself safe.
pub proof fn lemma_sanitize_idempotent(s: Seq<char>)
    ensures
        sanitize_seq(sanitize_seq(s)) == sanitize_seq(s),
{
    assert(sanitize_seq(sanitize_seq(s)) =~= sanitize_seq(s));
}

/// Every character of a sanitized name is alphanumeric, `-`, `_` or `.`.
pub proof fn lemma_sanitize_chars_safe(s: Seq<char>, i: int)
    requires
        0 <= i < sanitize_seq(s).len(),
    ensures
        safe_char(sanitize_seq(s)[i]),
{
}

/// The pattern occurs in the text starting exactly at position `i`.
pub open spec fn match_at(t: Seq<char>, p: Seq<char>, i: int) -> bool {
    0 <= i && i + p.len() <= t.len() && t.subrange(i, i + p.len() as int) == p
}

/// The pattern occurs somewhere in the text.
pub open spec fn text_contains(t: Seq<char>, p: Seq<char>) -> bool {
    exists|i: int| match_at(t, p, i)
}

/// The text begins with the pattern.
pub open spec fn text_starts_with(t: Seq<char>, p: Seq<char>) -> bool {
    match_at(t, p, 0)
}

/// Whether the pattern occurs in the text at exactly position `i`.
fn matches_at(text: &str, pat: &str, i: usize) -> (r: bool)
    requires
        i + pat@.len() <= text@.len(),
    ensures
        r == match_at(text@, pat@, i as int),
{
    let tlen = text.unicode_len();
    let plen = pat.unicode_len();
    let mut j: usize = 0;
    while j < plen
        invariant
            j <= plen,
            plen == pat@.len(),
            tlen == text@.len(),
            i + plen <= tlen,
            forall|k: int| 0 <= k < j ==> text@[i + k] == pat@[k],
        decreases plen - j,
    {
        if text.get_char(i + j) != pat.get_char(j) {
            proof {
                assert(text@.subrange(i as int, i + plen as int)[j as int] != pat@[j as int]);
            }
            return false;
        }
        j += 1;
    }
    proof {
        assert(text@.subrange(i as int, i + plen as int) =~= pat@);
    }
    true
}

/// Substring search: whether `pat` occurs anywhere in `text`.
pub fn contains_sub(text: &str, pat: &str) -> (r: bool)
    ensures
        r == text_contains(text@, pat@),
{
    let tlen = text.unicode_len();
    let plen = pat.unicode_len();
    if plen > tlen {
        return false;
    }
    let bound = tlen - plen;
    let mut i: usize = 0;
    loop
        invariant
            i <= bound,
            bound == tlen - plen,
            plen == pat@.len(),
            tlen == text@.len(),
            plen <= tlen,
            forall|k: int| 0 <= k < i ==> !match_at(text@, pat@, k),
        decreases bound - i,
    {
        if matches_at(text, pat, i) {
            return true;
        }
        if i == bound {
            proof {
                assert forall|k: int| !match_at(text@, pat@, k) by {
                    if match_at(text@, pat@, k) {
                        assert(0 <= k <= bound as int);
                    }
                }
            }
            return false;
        }
        i += 1;
    }
}

/// Prefix test: whether `text` begins with `pat`.
pub fn starts_with_sub(text: &str, pat: &str) -> (r: bool)
    ensures
        r == text_starts_with(text@, pat@),
{
    let tlen = text.unicode_len();
    let plen = pat.unicode_len();
    if plen > tlen {
        return false;
    }
    matches_at(text, pat, 0)
}

/// Character-wise string equality.
pub fn str_eq(a: &str, b: &str) -> (r: bool)
    ensures
        r == (a@ == b@),
{
    let alen = a.unicode_len();
    let blen = b.unicode_len();
    if alen != blen {
        return false;
    }
    let r = matches_at(a, b, 0);
    proof {
        if r {
            assert(a@.subrange(0, blen as int) =~= a@);
        } else {
            assert(a@.subrange(0, a@.len() as int) =~= a@);
        }
    }
    r
}

/// A message text mentions one of the allowlisted platforms.
pub open spec fn spec_is_social_media_url(t: Seq<char>) -> bool {
    ||| text_contains(t, "youtube.com"@)
    ||| text_contains(t, "youtu.be"@)
    ||| text_contains(t, "tiktok.com"@)
    ||| text_contains(t, "instagram.com"@)
    ||| text_contains(t, "twitter.com"@)
    ||| text_contains(t, "x.com"@)
}

/// A URL the orchestrator may act on: an `http` scheme prefix and a hostname
/// from the platform allowlist.
pub open spec fn spec_is_valid_url(u: Seq<char>) -> bool {
    text_starts_with(u, "http"@) && spec_is_social_media_url(u)
}

/// Dispatch filter: does the message mention an allowlisted platform?
pub fn is_social_media_url(text: &str) -> (r: bool)
    ensures
        r == spec_is_social_media_url(text@),
{
    contains_sub(text, "youtube.com") || contains_sub(text, "youtu.be") || contains_sub(
        text,
        "tiktok.com",
    ) || contains_sub(text, "instagram.com") || contains_sub(text, "twitter.com") || contains_sub(
        text,
        "x.com",
    )
}

/// Allowlist validation applied before any orchestration starts.
pub fn is_valid_url(url: &str) -> (r: bool)
    ensures
        r == spec_is_valid_url(url@),
{
    starts_with_sub(url, "http") && is_social_media_url(url)
}

/// The container/extension expected for a given source URL. Every platform
/// on the allowlist delivers the canonical container.
pub fn get_file_extension(url: &str) -> (r: String)
    ensures
        r@ == "mp4"@,
{
    if contains_sub(url, "youtube.com") || contains_sub(url, "youtu.be") {
        String::from_str("mp4")
    } else if contains_sub(url, "tiktok.com") {
        String::from_str("mp4")
    } else if contains_sub(url, "instagram.com") {
        String::from_str("mp4")
    } else if contains_sub(url, "twitter.com") || contains_sub(url, "x.com") {
        String::from_str("mp4")
    } else {
        String::from_str("mp4")
    }
}

} // verus!

//! Verified text manipulation: substring search and replacement, the
//! cover-art URL normalization, the YouTube artist-name cleanup, and the
//! search query builders.

use vstd::prelude::*;
use vstd::string::StrSliceExecFns;
use vstd::string::StringExecFns;

verus! {

/// What replacing every occurrence of `pat` in `s` by `rep` means:
/// scanning left to right, an occurrence of `pat` is replaced and the
/// scan resumes after it; other characters are kept.
pub open spec fn spec_replace_all(s: Seq<char>, pat: Seq<char>, rep: Seq<char>) -> Seq<char>
    decreases s.len(),
{
    if pat.len() == 0 || s.len() < pat.len() {
        s
    } else if s.subrange(0, pat.len() as int) == pat {
        rep + spec_replace_all(s.subrange(pat.len() as int, s.len() as int), pat, rep)
    } else {
        seq![s[0]] + spec_replace_all(s.subrange(1, s.len() as int), pat, rep)
    }
}

/// True when `pat` occurs in `s` starting at `at`.
pub open spec fn spec_matches_at(s: Seq<char>, pat: Seq<char>, at: int) -> bool {
    0 <= at && at + pat.len() <= s.len() && s.subrange(at, at + pat.len()) == pat
}

/// Whether two string slices hold the same characters.
pub fn str_eq(a: &str, b: &str) -> (r: bool)
    ensures
        r == (a@ == b@),
{
    let alen = a.unicode_len();
    let blen = b.unicode_len();
    if alen != blen {
        assert(a@ != b@);
        return false;
    }
    let mut i: usize = 0;
    while i < alen
        invariant
            alen == a@.len(),
            alen == b@.len(),
            i <= alen,
            forall|k: int| 0 <= k < i ==> a@[k] == b@[k],
        decreases alen - i,
    {
        if a.get_char(i) != b.get_char(i) {
            return false;
        }
        i += 1;
    }
    assert(a@ =~= b@);
    true
}

/// Whether `pat` occurs in `s` starting at character position `at`.
pub fn matches_at(s: &str, pat: &str, at: usize) -> (r: bool)
    requires
        at <= s@.len(),
    ensures
        r == spec_matches_at(s@, pat@, at as int),
{
    let slen = s.unicode_len();
    let plen = pat.unicode_len();
    if slen - at < plen {
        return false;
    }
    let mut i: usize = 0;
    while i < plen
        invariant
            slen == s@.len(),
            plen == pat@.len(),
            at + plen <= slen,
            i <= plen,
            forall|k: int| 0 <= k < i ==> s@[at + k] == pat@[k],
        decreases plen - i,
    {
        if s.get_char(at + i) != pat.get_char(i) {
            assert(s@.subrange(at as int, at + pat@.len()) != pat@) by {
                assert(s@.subrange(at as int, at + pat@.len())[i as int] != pat@[i as int]);
            }
            return false;
        }
        i += 1;
    }
    assert(s@.subrange(at as int, at + pat@.len()) =~= pat@);
    true
}

/// Replacing a prefix that starts with an occurrence of the pattern
/// consumes that occurrence whole.
proof fn lemma_replace_step_match(s: Seq<char>, pat: Seq<char>, rep: Seq<char>, i: int)
    requires
        pat.len() > 0,
        0 <= i,
        i + pat.len() <= s.len(),
        spec_matches_at(s, pat, i),
    ensures
        spec_replace_all(s.subrange(i, s.len() as int), pat, rep) == rep + spec_replace_all(
            s.subrange(i + pat.len(), s.len() as int),
            pat,
            rep,
        ),
{
    let tail = s.subrange(i, s.len() as int);
    assert(tail.subrange(0, pat.len() as int) =~= s.subrange(i, i + pat.len()));
    assert(tail.subrange(pat.len() as int, tail.len() as int) =~= s.subrange(
        i + pat.len(),
        s.len() as int,
    ));
}

/// Replacing a prefix that does not start with an occurrence keeps its
/// first character.
proof fn lemma_replace_step_keep(s: Seq<char>, pat: Seq<char>, rep: Seq<char>, i: int)
    requires
        pat.len() > 0,
        0 <= i < s.len(),
        !spec_matches_at(s, pat, i),
    ensures
        spec_replace_all(s.subrange(i, s.len() as int), pat, rep) == seq![s[i]]
            + spec_replace_all(s.subrange(i + 1, s.len() as int), pat, rep),
{
    let tail = s.subrange(i, s.len() as int);
    if tail.len() >= pat.len() {
        assert(tail.subrange(0, pat.len() as int) =~= s.subrange(i, i + pat.len()));
        assert(tail.subrange(0, pat.len() as int) != pat);
        assert(tail.subrange(1, tail.len() as int) =~= s.subrange(i + 1, s.len() as int));
        assert(seq![tail[0]] =~= seq![s[i]]);
    } else {
        // The remaining text is shorter than the pattern: nothing is
        // replaced in it, so keeping one character at a time is exact.
        assert(tail =~= seq![s[i]] + s.subrange(i + 1, s.len() as int));
        lemma_replace_short(s.subrange(i + 1, s.len() as int), pat, rep);
    }
}

/// Text shorter than the pattern is returned unchanged.
proof fn lemma_replace_short(s: Seq<char>, pat: Seq<char>, rep: Seq<char>)
    requires
        s.len() < pat.len(),
    ensures
        spec_replace_all(s, pat, rep) == s,
{
}

/// Replaces every occurrence of `pat` in `s` by `rep`, scanning left to
/// right and resuming after each replacement.
pub fn replace_all(s: &str, pat: &str, rep: &str) -> (r: String)
    ensures
        r@ == spec_replace_all(s@, pat@, rep@),
{
    let slen = s.unicode_len();
    let plen = pat.unicode_len();
    if plen == 0 {
        return s.to_owned();
    }
    let mut out = String::new();
    let mut i: usize = 0;
    proof {
        assert(s@.subrange(0, slen as int) =~= s@);
        assert(out@ + spec_replace_all(s@, pat@, rep@) =~= spec_replace_all(s@, pat@, rep@));
    }
    while i < slen
        invariant
            slen == s@.len(),
            plen == pat@.len(),
            plen > 0,
            i <= slen,
            spec_replace_all(s@, pat@, rep@) == out@ + spec_replace_all(
                s@.subrange(i as int, slen as int),
                pat@,
                rep@,
            ),
        decreases slen - i,
    {
        if matches_at(s, pat, i) {
            proof {
                lemma_replace_step_match(s@, pat@, rep@, i as int);
            }
            out.append(rep);
            i += plen;
        } else {
            proof {
                lemma_replace_step_keep(s@, pat@, rep@, i as int);
            }
            let piece = s.substring_char(i, i + 1);
            assert(piece@ =~= seq![s@[i as int]]);
            out.append(piece);
            i += 1;
        }
        assert(out@ + spec_replace_all(s@.subrange(i as int, slen as int), pat@, rep@)
            == spec_replace_all(s@, pat@, rep@));
    }
    assert(s@.subrange(slen as int, slen as int) =~= Seq::<char>::empty());
    assert(out@ =~= out@ + spec_replace_all(s@.subrange(i as int, slen as int), pat@, rep@));
    out
}

/// What the normalized form of a cover-art template URL is: the size
/// placeholder becomes a fixed 300 by 300, the format placeholder
/// becomes `jpg`.
pub open spec fn spec_normalize_cover_url(u: Seq<char>) -> Seq<char> {
    spec_replace_all(spec_replace_all(u, "{w}x{h}"@, "300x300"@), "{f}"@, "jpg"@)
}

/// Substitutes the `{w}x{h}` size placeholder and the `{f}` format
/// placeholder of a provider cover-art template URL with a fixed
/// 300x300 size and the `jpg` format.
pub fn normalize_cover_url(url: &str) -> (r: String)
    ensures
        r@ == spec_normalize_cover_url(url@),
{
    let once = replace_all(url, "{w}x{h}", "300x300");
    replace_all(once.as_str(), "{f}", "jpg")
}

/// What stripping the auto-generated channel suffix means: when the name
/// ends with " - Topic", the suffix is dropped once; otherwise the name
/// is kept.
pub open spec fn spec_strip_topic_suffix(a: Seq<char>) -> Seq<char> {
    let suffix = " - Topic"@;
    if a.len() >= suffix.len() && a.subrange(a.len() - suffix.len(), a.len() as int) == suffix {
        a.subrange(0, a.len() - suffix.len())
    } else {
        a
    }
}

/// Strips the trailing " - Topic" that YouTube appends to the channel
/// names of auto-generated artist channels; a name without the suffix is
/// returned unchanged.
pub fn strip_topic_suffix(artist: &str) -> (r: String)
    ensures
        r@ == spec_strip_topic_suffix(artist@),
{
    let alen = artist.unicode_len();
    let suffix = " - Topic";
    let slen = suffix.unicode_len();
    if alen >= slen && matches_at(artist, suffix, alen - slen) {
        let kept = artist.substring_char(0, alen - slen);
        kept.to_owned()
    } else {
        artist.to_owned()
    }
}

/// The free-text search query for a track: its title and artist joined
/// by one space.
pub open spec fn spec_text_query(title: Seq<char>, artist: Seq<char>) -> Seq<char> {
    title + " "@ + artist
}

/// Builds the free-text search query "{title} {artist}".
pub fn text_query(title: &str, artist: &str) -> (r: String)
    ensures
        r@ == spec_text_query(title@, artist@),
{
    let mut out = title.to_owned();
    out.append(" ");
    out.append(artist);
    out
}

/// The Spotify ISRC filter query: `isrc:` followed by the code.
pub open spec fn spec_isrc_query(isrc: Seq<char>) -> Seq<char> {
    "isrc:"@ + isrc
}

/// Builds the Spotify ISRC filter query "isrc:{code}".
pub fn isrc_query(isrc: &str) -> (r: String)
    ensures
        r@ == spec_isrc_query(isrc@),
{
    let mut out = String::new();
    out.append("isrc:");
    out.append(isrc);
    out
}

/// The Spotify structured text query: `track:"{title}" artist:"{artist}"`.
pub open spec fn spec_structured_query(title: Seq<char>, artist: Seq<char>) -> Seq<char> {
    "track:\""@ + title + "\" artist:\""@ + artist + "\""@
}

/// Builds the Spotify structured search query `track:"{title}" artist:"{artist}"`.
pub fn structured_query(title: &str, artist: &str) -> (r: String)
    ensures
        r@ == spec_structured_query(title@, artist@),
{
    let mut out = String::new();
    out.append("track:\"");
    out.append(title);
    out.append("\" artist:\"");
    out.append(artist);
    out.append("\"");
    out
}

} // verus!

//! URL classification: a URL names a playlist exactly when it contains the
//! literal marker `playlist?list=` anywhere in the string; every other URL,
//! well-formed or not, is treated as a single video and left for the external
//! downloader to judge.

use vstd::prelude::*;
use vstd::string::StrSliceExecFns;

use crate::TargetKind;

verus! {

/// The pattern `pat` occurs in `s` starting at position `i`.
pub open spec fn contains_at(s: Seq<char>, pat: Seq<char>, i: int) -> bool {
    &&& 0 <= i
    &&& i + pat.len() <= s.len()
    &&& s.subrange(i, i + pat.len() as int) == pat
}

/// The pattern `pat` occurs somewhere in `s`.
pub open spec fn contains_substring(s: Seq<char>, pat: Seq<char>) -> bool {
    exists|i: int| contains_at(s, pat, i)
}

/// The substring that marks a playlist URL.
pub open spec fn playlist_marker() -> Seq<char> {
    "playlist?list="@
}

/// What `classify` returns for a given URL.
pub open spec fn spec_classify(url: Seq<char>) -> TargetKind {
    if contains_substring(url, playlist_marker()) {
        TargetKind::Playlist
    } else {
        TargetKind::SingleVideo
    }
}

/// Does `pat` occur in `s` starting at position `i`?
fn match_at(s: &str, pat: &str, i: usize) -> (r: bool)
    requires
        i + pat@.len() <= s@.len(),
        i + pat@.len() <= usize::MAX,
    ensures
        r == contains_at(s@, pat@, i as int),
{
    let m = pat.unicode_len();
    let mut j: usize = 0;
    while j < m
        invariant
            m == pat@.len(),
            i + m <= s@.len(),
            i + m <= usize::MAX,
            j <= m,
            forall|l: int| 0 <= l < j ==> s@[i + l] == pat@[l],
        decreases m - j,
    {
        if s.get_char(i + j) != pat.get_char(j) {
            assert(s@.subrange(i as int, i + m) != pat@) by {
                assert(s@.subrange(i as int, i + m)[j as int] != pat@[j as int]);
            }
            return false;
        }
        j += 1;
    }
    assert(s@.subrange(i as int, i + m) =~= pat@);
    true
}

/// Unanchored substring search: does `pat` occur anywhere in `s`?
pub fn str_contains(s: &str, pat: &str) -> (r: bool)
    ensures
        r == contains_substring(s@, pat@),
{
    let n = s.unicode_len();
    let m = pat.unicode_len();
    if m > n {
        assert(forall|i: int| !contains_at(s@, pat@, i));
        return false;
    }
    let limit: usize = n - m;
    let mut i: usize = 0;
    loop
        invariant
            n == s@.len(),
            m == pat@.len(),
            m <= n,
            limit == n - m,
            i <= limit,
            forall|k: int| 0 <= k < i ==> !contains_at(s@, pat@, k),
        decreases limit - i,
    {
        if match_at(s, pat, i) {
            assert(contains_at(s@, pat@, i as int));
            return true;
        }
        if i == limit {
            assert(forall|k: int| !contains_at(s@, pat@, k));
            return false;
        }
        i += 1;
    }
}

/// Decide whether a URL names a single video or a playlist.
pub fn classify(url: &str) -> (kind: TargetKind)
    ensures
        kind == spec_classify(url@),
        kind is Playlist <==> contains_substring(url@, playlist_marker()),
{
    if str_contains(url, "playlist?list=") {
        TargetKind::Playlist
    } else {
        TargetKind::SingleVideo
    }
}

} // verus!

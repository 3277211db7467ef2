//! General helpers for request paths.

use vstd::prelude::*;
use crate::text::chars_of;

verus! {

/// Index of the last dot of `s`, or `-1` where `s` holds none.
pub open spec fn last_dot(s: Seq<char>) -> int
    decreases s.len(),
{
    if s.len() == 0 {
        -1
    } else if s.last() == '.' {
        s.len() - 1
    } else {
        last_dot(s.drop_last())
    }
}

/// What stands before and after the last dot of `s`; `None` where `s` holds
/// no dot or starts with its only dot.
pub open spec fn split_on_extension_spec(s: Seq<char>) -> Option<(Seq<char>, Seq<char>)> {
    let d = last_dot(s);
    if d <= 0 {
        None
    } else {
        Some((s.subrange(0, d), s.subrange(d + 1, s.len() as int)))
    }
}

/// The extension of a path that names none.
pub open spec fn default_extension() -> Seq<char> {
    seq!['s', 'v', 'g']
}

/// File name and extension of `s`, with the default where it has none.
pub open spec fn parse_path_spec(s: Seq<char>) -> (Seq<char>, Seq<char>) {
    match split_on_extension_spec(s) {
        Some(pair) => pair,
        None => (s, default_extension()),
    }
}

/// `d` is the last dot of `s` as soon as no dot stands behind it.
pub proof fn lemma_last_dot(s: Seq<char>, d: int)
    requires
        -1 <= d < s.len(),
        d >= 0 ==> s[d] == '.',
        forall|k: int| d < k < s.len() ==> s[k] != '.',
    ensures
        last_dot(s) == d,
    decreases s.len(),
{
    if s.len() > 0 && s.last() != '.' {
        lemma_last_dot(s.drop_last(), d);
    }
}

/// A split puts the path back together around one dot, and the extension
/// holds no dot of its own.
pub proof fn lemma_split_rejoins(s: Seq<char>)
    ensures
        match split_on_extension_spec(s) {
            Some((stem, ext)) => {
                &&& s == stem + seq!['.'] + ext
                &&& stem.len() > 0
                &&& forall|k: int| 0 <= k < ext.len() ==> ext[k] != '.'
            },
            None => s.len() == 0 || s[0] == '.' || forall|k: int| 0 <= k < s.len() ==> s[k] != '.',
        },
{
    lemma_last_dot_is_last(s);
    let d = last_dot(s);
    if d > 0 {
        let stem = s.subrange(0, d);
        let ext = s.subrange(d + 1, s.len() as int);
        assert(s =~= stem + seq!['.'] + ext);
    }
}

/// `last_dot` points at a dot, and nothing behind it is one.
pub proof fn lemma_last_dot_is_last(s: Seq<char>)
    ensures
        -1 <= last_dot(s) < s.len(),
        last_dot(s) >= 0 ==> s[last_dot(s)] == '.',
        forall|k: int| last_dot(s) < k < s.len() ==> s[k] != '.',
    decreases s.len(),
{
    if s.len() > 0 && s.last() != '.' {
        let t = s.drop_last();
        lemma_last_dot_is_last(t);
        assert forall|k: int| last_dot(s) < k < s.len() implies s[k] != '.' by {
            if k < t.len() {
                assert(t[k] == s[k]);
            }
        }
    }
}

/// Splits a path on its last dot into file name and extension.
///
/// A path without a dot, and a path whose last dot is its first character
/// (a dotfile), has no extension.
pub fn split_on_extension(path: &str) -> (r: Option<(&str, &str)>)
    ensures
        match r {
            Some((stem, ext)) => split_on_extension_spec(path@) == Some((stem@, ext@)),
            None => split_on_extension_spec(path@) is None,
        },
{
    let chars = chars_of(path);
    let n = chars.len();
    let mut i: usize = n;
    while i > 0 && chars[i - 1] != '.'
        invariant
            i <= n,
            n == chars@.len(),
            forall|k: int| i <= k < n ==> chars@[k] != '.',
        decreases i,
    {
        i = i - 1;
    }
    proof {
        lemma_last_dot(path@, i as int - 1);
    }
    if i <= 1 {
        return None;
    }
    let stem = path.substring_char(0, i - 1);
    let ext = path.substring_char(i, n);
    Some((stem, ext))
}

/// Splits a path into file name and extension; the extension is `svg` where
/// the path names none.
pub fn parse_path(path: &str) -> (r: (&str, &str))
    ensures
        (r.0@, r.1@) == parse_path_spec(path@),
{
    match split_on_extension(path) {
        Some(pair) => pair,
        None => {
            proof {
                reveal_strlit("svg");
            }
            let ext: &str = "svg";
            assert(ext@ =~= default_extension());
            (path, ext)
        },
    }
}

} // verus!

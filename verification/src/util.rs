//! Small string utilities: substring search and the substring helpers used
//! by the flow engine to cut version numbers out of larger strings.

use vstd::prelude::*;
use vstd::string::*;

verus! {

/// The pattern `p` occurs in `s` starting at position `i`.
pub open spec fn match_at(s: Seq<char>, p: Seq<char>, i: int) -> bool {
    0 <= i && i + p.len() <= s.len() && s.subrange(i, i + p.len() as int) == p
}

/// The first position at or after `from` where `p` occurs in `s`.
pub open spec fn first_match_from(s: Seq<char>, p: Seq<char>, from: int) -> Option<int>
    decreases s.len() - from,
{
    if !(0 <= from && from + p.len() <= s.len()) {
        None
    } else if match_at(s, p, from) {
        Some(from)
    } else if from < s.len() {
        first_match_from(s, p, from + 1)
    } else {
        None
    }
}

/// The first position where `p` occurs in `s`, if any.
pub open spec fn spec_find(s: Seq<char>, p: Seq<char>) -> Option<int> {
    first_match_from(s, p, 0)
}

pub open spec fn spec_starts_with(s: Seq<char>, p: Seq<char>) -> bool {
    match_at(s, p, 0)
}

pub open spec fn spec_ends_with(s: Seq<char>, p: Seq<char>) -> bool {
    match_at(s, p, s.len() - p.len())
}

/// A match at `i` with none earlier pins down `spec_find`.
pub proof fn lemma_first_match_found(s: Seq<char>, p: Seq<char>, from: int, i: int)
    requires
        0 <= from <= i,
        match_at(s, p, i),
        forall|j: int| from <= j < i ==> !match_at(s, p, j),
    ensures
        first_match_from(s, p, from) == Some(i),
    decreases i - from,
{
    if from == i {
        assert(first_match_from(s, p, from) == Some(i));
    } else {
        assert(!match_at(s, p, from));
        assert(from + p.len() <= s.len()) by {
            assert(i + p.len() <= s.len());
        }
        lemma_first_match_found(s, p, from + 1, i);
    }
}

/// No match anywhere at or after `from` means `first_match_from` is `None`.
pub proof fn lemma_first_match_none(s: Seq<char>, p: Seq<char>, from: int)
    requires
        0 <= from,
        forall|j: int| from <= j ==> !match_at(s, p, j),
    ensures
        first_match_from(s, p, from) is None,
    decreases s.len() - from,
{
    if 0 <= from && from + p.len() <= s.len() && from < s.len() {
        assert(!match_at(s, p, from));
        lemma_first_match_none(s, p, from + 1);
    }
}

/// A found position is a real match at or after `from`.
pub proof fn lemma_first_match_is_match(s: Seq<char>, p: Seq<char>, from: int)
    ensures
        first_match_from(s, p, from) matches Some(i) ==> from <= i && match_at(s, p, i),
    decreases s.len() - from,
{
    if 0 <= from && from + p.len() <= s.len() && !match_at(s, p, from) && from < s.len() {
        lemma_first_match_is_match(s, p, from + 1);
    }
}

/// Whether `pat` occurs in `s` at position `i`.
pub fn matches_at(s: &str, pat: &str, i: usize) -> (r: bool)
    ensures
        r == match_at(s@, pat@, i as int),
{
    let n = s.unicode_len();
    let m = pat.unicode_len();
    if i > n || m > n - i {
        return false;
    }
    let mut j: usize = 0;
    while j < m
        invariant
            n == s@.len(),
            m == pat@.len(),
            i + m <= n,
            j <= m,
            forall|k: int| 0 <= k < j ==> s@[i + k] == pat@[k],
        decreases m - j,
    {
        if s.get_char(i + j) != pat.get_char(j) {
            proof {
                assert(s@.subrange(i as int, i + m as int)[j as int] == s@[i + j]);
            }
            return false;
        }
        j += 1;
    }
    proof {
        assert(s@.subrange(i as int, i + m as int) =~= pat@);
    }
    true
}

/// The first position where `pat` occurs in `s`, if any.
pub fn find_str(s: &str, pat: &str) -> (r: Option<usize>)
    ensures
        match r {
            Some(i) => spec_find(s@, pat@) == Some(i as int),
            None => spec_find(s@, pat@) is None,
        },
{
    let n = s.unicode_len();
    let m = pat.unicode_len();
    if m > n {
        return None;
    }
    let mut i: usize = 0;
    loop
        invariant
            n == s@.len(),
            m == pat@.len(),
            m <= n,
            i <= n - m,
            forall|j: int| 0 <= j < i ==> !match_at(s@, pat@, j),
        decreases n - m - i,
    {
        if matches_at(s, pat, i) {
            proof {
                lemma_first_match_found(s@, pat@, 0, i as int);
            }
            return Some(i);
        }
        if i == n - m {
            proof {
                assert forall|j: int| 0 <= j implies !match_at(s@, pat@, j) by {
                    if j > n - m {
                        assert(j + pat@.len() > s@.len());
                    }
                }
                lemma_first_match_none(s@, pat@, 0);
            }
            return None;
        }
        i += 1;
    }
}

/// Whether `s` starts with `pat`.
pub fn starts_with_str(s: &str, pat: &str) -> (r: bool)
    ensures
        r == spec_starts_with(s@, pat@),
{
    matches_at(s, pat, 0)
}

/// Whether `s` ends with `pat`.
pub fn ends_with_str(s: &str, pat: &str) -> (r: bool)
    ensures
        r == spec_ends_with(s@, pat@),
{
    let n = s.unicode_len();
    let m = pat.unicode_len();
    if m > n {
        return false;
    }
    matches_at(s, pat, n - m)
}

/// Whether the two strings hold the same characters.
pub fn str_eq_whole(a: &str, b: &str) -> (r: bool)
    ensures
        r == (a@ == b@),
{
    let n = a.unicode_len();
    if n != b.unicode_len() {
        return false;
    }
    let r = matches_at(a, b, 0);
    proof {
        assert(a@.subrange(0, b@.len() as int) =~= a@);
    }
    r
}

/// A freshly owned copy of `s[from..to]`, counted in characters.
pub fn substring_copy(s: &str, from: usize, to: usize) -> (r: String)
    requires
        from <= to <= s@.len(),
    ensures
        r@ == s@.subrange(from as int, to as int),
{
    s.substring_char(from, to).to_owned()
}

/// What `Util::substring_between` returns: the characters from the start of
/// the first occurrence of `start` up to the start of the first occurrence
/// of `end`, or `None` when either pattern is missing or `end` first occurs
/// before `start`.
pub open spec fn spec_substring_between(line: Seq<char>, start: Seq<char>, end: Seq<char>) -> Option<
    Seq<char>,
> {
    match (spec_find(line, start), spec_find(line, end)) {
        (Some(i), Some(j)) => if i <= j {
            Some(line.subrange(i, j))
        } else {
            None
        },
        _ => None,
    }
}

/// What `Util::substring_after` returns: everything past the first character
/// of the first occurrence of `start`, or `None` when `start` is missing or
/// the occurrence begins at the very end of `line`.
pub open spec fn spec_substring_after(line: Seq<char>, start: Seq<char>) -> Option<Seq<char>> {
    match spec_find(line, start) {
        Some(i) => if i + 1 <= line.len() {
            Some(line.subrange(i + 1, line.len() as int))
        } else {
            None
        },
        None => None,
    }
}

/// What `Util::substring_before` returns: everything before the first
/// occurrence of `end`, or `None` when `end` is missing.
pub open spec fn spec_substring_before(line: Seq<char>, end: Seq<char>) -> Option<Seq<char>> {
    match spec_find(line, end) {
        Some(i) => Some(line.subrange(0, i)),
        None => None,
    }
}

pub struct Util {}

impl Util {
    /// The characters of `line` from the first occurrence of `start` up to
    /// the first occurrence of `end`.
    pub fn substring_between(line: &String, start: &str, end: &str) -> (r: Option<String>)
        ensures
            r.deep_view() == spec_substring_between(line@, start@, end@),
    {
        let i = match find_str(line.as_str(), start) {
            Some(i) => i,
            None => {
                return None;
            },
        };
        let j = match find_str(line.as_str(), end) {
            Some(j) => j,
            None => {
                return None;
            },
        };
        if i <= j {
            proof {
                lemma_first_match_is_match(line@, end@, 0);
            }
            Some(substring_copy(line.as_str(), i, j))
        } else {
            None
        }
    }

    /// The characters of `line` past the first character of the first
    /// occurrence of `start`.
    pub fn substring_after(line: &String, start: &str) -> (r: Option<String>)
        ensures
            r.deep_view() == spec_substring_after(line@, start@),
    {
        let i = match find_str(line.as_str(), start) {
            Some(i) => i,
            None => {
                return None;
            },
        };
        let n = line.as_str().unicode_len();
        if i < n {
            Some(substring_copy(line.as_str(), i + 1, n))
        } else {
            None
        }
    }

    /// The characters of `line` before the first occurrence of `end`.
    pub fn substring_before(line: &String, end: &str) -> (r: Option<String>)
        ensures
            r.deep_view() == spec_substring_before(line@, end@),
    {
        let i = match find_str(line.as_str(), end) {
            Some(i) => i,
            None => {
                return None;
            },
        };
        proof {
            lemma_first_match_is_match(line@, end@, 0);
        }
        Some(substring_copy(line.as_str(), 0, i))
    }
}

} // verus!

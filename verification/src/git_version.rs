//! Reading the git client's version: cutting the first
//! `digits*.digits*.digits*` run out of the tool's version report, and
//! holding it against the minimum version the flows rely on.

use vstd::prelude::*;
use vstd::string::*;

use crate::util::substring_copy;
use crate::version::is_digit;

verus! {

/// The minimum git version the flows rely on (`git switch` support).
pub fn min_git_version() -> (r: &'static str)
    ensures
        r@ == "2.23.0"@,
{
    "2.23.0"
}

/// The first index at or past `i` that does not hold a digit (or the
/// length, when digits run to the end).
pub open spec fn digit_run_end(s: Seq<char>, i: int) -> int
    decreases s.len() - i,
{
    if 0 <= i < s.len() && is_digit(s[i]) {
        digit_run_end(s, i + 1)
    } else {
        i
    }
}

/// A run bounded below by its start and above by the length.
pub proof fn lemma_digit_run_end_bounds(s: Seq<char>, i: int)
    requires
        0 <= i <= s.len(),
    ensures
        i <= digit_run_end(s, i) <= s.len(),
    decreases s.len() - i,
{
    if i < s.len() && is_digit(s[i]) {
        lemma_digit_run_end_bounds(s, i + 1);
    }
}

/// A `digits* . digits* . digits*` shape begins at `i`.
pub open spec fn version_shape_at(s: Seq<char>, i: int) -> bool {
    let e1 = digit_run_end(s, i);
    e1 < s.len() && s[e1] == '.' && {
        let e2 = digit_run_end(s, e1 + 1);
        e2 < s.len() && s[e2] == '.'
    }
}

/// Where the greedy match beginning at `i` ends: past the third digit run.
pub open spec fn version_shape_end(s: Seq<char>, i: int) -> int {
    digit_run_end(s, digit_run_end(s, digit_run_end(s, i) + 1) + 1)
}

/// The first position at or after `from` where the shape begins.
pub open spec fn first_version_shape(s: Seq<char>, from: int) -> Option<int>
    decreases s.len() - from,
{
    if !(0 <= from < s.len()) {
        None
    } else if version_shape_at(s, from) {
        Some(from)
    } else {
        first_version_shape(s, from + 1)
    }
}

/// What `extract_version_number` returns: the first, greedily taken,
/// `digits*.digits*.digits*` run, if any.
pub open spec fn spec_extract_version(s: Seq<char>) -> Option<Seq<char>> {
    match first_version_shape(s, 0) {
        Some(i) => Some(s.subrange(i, version_shape_end(s, i))),
        None => None,
    }
}

/// The end of the digit run starting at `i`.
fn digit_run_end_exec(s: &str, i: usize, n: usize) -> (e: usize)
    requires
        n == s@.len(),
        i <= n,
    ensures
        e == digit_run_end(s@, i as int),
        i <= e <= n,
{
    let mut j: usize = i;
    loop
        invariant
            n == s@.len(),
            i <= j <= n,
            digit_run_end(s@, i as int) == digit_run_end(s@, j as int),
        decreases n - j,
    {
        if j == n {
            return j;
        }
        let c = s.get_char(j);
        let u = c as u32;
        if u < 48 || u > 57 {
            proof {
                assert(!is_digit(s@[j as int]));
            }
            return j;
        }
        j += 1;
    }
}

/// Whether the shape begins at `i`, and where it ends when it does.
fn version_shape_check(s: &str, i: usize, n: usize) -> (r: Option<usize>)
    requires
        n == s@.len(),
        i <= n,
    ensures
        match r {
            Some(e) => version_shape_at(s@, i as int) && e == version_shape_end(s@, i as int) && i
                <= e <= n,
            None => !version_shape_at(s@, i as int),
        },
{
    let e1 = digit_run_end_exec(s, i, n);
    if e1 == n {
        return None;
    }
    if s.get_char(e1) != '.' {
        return None;
    }
    let e2 = digit_run_end_exec(s, e1 + 1, n);
    if e2 == n {
        return None;
    }
    if s.get_char(e2) != '.' {
        return None;
    }
    let e3 = digit_run_end_exec(s, e2 + 1, n);
    Some(e3)
}

/// The first `digits*.digits*.digits*` run in `output`, greedily matched:
/// how a version number is read out of a `git --version` report.
pub fn extract_version_number(output: &str) -> (r: Option<String>)
    ensures
        r.deep_view() == spec_extract_version(output@),
{
    let n = output.unicode_len();
    let mut i: usize = 0;
    loop
        invariant
            n == output@.len(),
            i <= n,
            first_version_shape(output@, 0) == first_version_shape(output@, i as int),
        decreases n - i,
    {
        if i == n {
            return None;
        }
        match version_shape_check(output, i, n) {
            Some(e) => {
                proof {
                    assert(first_version_shape(output@, i as int) == Some(i as int));
                }
                return Some(substring_copy(output, i, e));
            },
            None => {},
        }
        i += 1;
    }
}

/// What `version_compare::compare_to` under the greater-or-equal operator
/// answers for two version strings: a function of the two strings alone.
pub uninterp spec fn version_ge(current: Seq<char>, minimum: Seq<char>) -> bool;

/// Relies on version_compare's `compare_to` with `Cmp::Ge`: whether the
/// first version number string is at least the second; a string that the
/// crate cannot read as a version counts as not-at-least.
#[verifier::external_body]
fn version_at_least(current: &str, minimum: &str) -> (r: bool)
    ensures
        r == version_ge(current@, minimum@),
{
    version_compare::compare_to(current, minimum, version_compare::Cmp::Ge).unwrap_or(false)
}

/// Whether the reported git version is at least the minimum the flows rely
/// on.
pub fn check_git_version(current_git_version: &String) -> (r: bool)
    ensures
        r == version_ge(current_git_version@, "2.23.0"@),
{
    version_at_least(current_git_version.as_str(), min_git_version())
}

} // verus!

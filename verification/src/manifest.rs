//! The manifest-file side of the Webpack adapter: reading the version field
//! out of the manifest's lines and writing a new value into them, keeping
//! every other line verbatim and in order. Reading and writing the file
//! itself is driver work outside this library.

use vstd::prelude::*;
use vstd::string::*;

use crate::util::{
    spec_find, spec_starts_with, find_str, starts_with_str, substring_copy,
    lemma_first_match_is_match,
};

verus! {

/// A manifest line that carries the version field.
pub open spec fn spec_is_version_line(line: Seq<char>) -> bool {
    spec_starts_with(line, "\"version\":"@)
}

/// The value a version line holds: the characters between the first
/// `"version": "` marker and the first `",`, or nothing when either is
/// missing or they stand in the wrong order.
pub open spec fn spec_line_version_value(line: Seq<char>) -> Option<Seq<char>> {
    match (spec_find(line, "\"version\": \""@), spec_find(line, "\","@)) {
        (Some(i), Some(j)) => {
            let start = i + "\"version\": \""@.len();
            if start <= j {
                Some(line.subrange(start, j))
            } else {
                None
            }
        },
        _ => None,
    }
}

/// The line written in place of a version line.
pub open spec fn spec_version_line(new_version: Seq<char>) -> Seq<char> {
    "  \"version\": \""@ + new_version + "\","@
}

/// The version a manifest reports: the value of its first version line.
pub open spec fn spec_manifest_version(lines: Seq<Seq<char>>) -> Option<Seq<char>>
    decreases lines.len(),
{
    if lines.len() == 0 {
        None
    } else if spec_is_version_line(lines[0]) {
        spec_line_version_value(lines[0])
    } else {
        spec_manifest_version(lines.subrange(1, lines.len() as int))
    }
}

/// The value of one version line.
fn line_version_value(line: &String) -> (r: Option<String>)
    ensures
        r.deep_view() == spec_line_version_value(line@),
{
    let i = match find_str(line.as_str(), "\"version\": \"") {
        Some(i) => i,
        None => {
            return None;
        },
    };
    let j = match find_str(line.as_str(), "\",") {
        Some(j) => j,
        None => {
            return None;
        },
    };
    proof {
        lemma_first_match_is_match(line@, "\"version\": \""@, 0);
        lemma_first_match_is_match(line@, "\","@, 0);
    }
    let line_len = line.as_str().unicode_len();
    let m = "\"version\": \"".unicode_len();
    proof {
        assert(i + m <= line_len);
    }
    if i + m <= j {
        Some(substring_copy(line.as_str(), i + m, j))
    } else {
        None
    }
}

/// The version the manifest reports, read from its lines.
pub fn manifest_current_version(lines: &Vec<String>) -> (r: Option<String>)
    ensures
        r.deep_view() == spec_manifest_version(lines.deep_view()),
{
    let n = lines.len();
    let mut idx: usize = 0;
    proof {
        assert(lines.deep_view().subrange(0, n as int) =~= lines.deep_view());
    }
    loop
        invariant
            n == lines@.len(),
            idx <= n,
            spec_manifest_version(lines.deep_view()) == spec_manifest_version(
                lines.deep_view().subrange(idx as int, n as int),
            ),
        decreases n - idx,
    {
        proof {
            assert(lines.deep_view().subrange(idx as int, n as int).len() == n - idx);
        }
        if idx == n {
            proof {
                assert(lines.deep_view().subrange(idx as int, n as int).len() == 0);
            }
            return None;
        }
        let line = &lines[idx];
        proof {
            assert(lines.deep_view().subrange(idx as int, n as int)[0] == line@);
        }
        if starts_with_str(line.as_str(), "\"version\":") {
            return line_version_value(line);
        }
        proof {
            assert(lines.deep_view().subrange(idx as int, n as int).subrange(
                1,
                (n - idx) as int,
            ) =~= lines.deep_view().subrange(idx + 1, n as int));
        }
        idx += 1;
    }
}

/// A copy of the manifest lines with every version line rewritten to hold
/// `new_version`, and every other line kept verbatim, in order.
pub fn manifest_with_version(lines: &Vec<String>, new_version: &str) -> (r: Vec<String>)
    ensures
        r.deep_view().len() == lines.deep_view().len(),
        forall|k: int|
            0 <= k < lines@.len() ==> #[trigger] r.deep_view()[k] == (
            if spec_is_version_line(lines.deep_view()[k]) {
                spec_version_line(new_version@)
            } else {
                lines.deep_view()[k]
            }),
{
    let n = lines.len();
    let mut out: Vec<String> = Vec::new();
    let mut idx: usize = 0;
    while idx < n
        invariant
            n == lines@.len(),
            idx <= n,
            out@.len() == idx,
            forall|k: int|
                0 <= k < idx ==> #[trigger] out@[k].deep_view() == (
                if spec_is_version_line(lines.deep_view()[k]) {
                    spec_version_line(new_version@)
                } else {
                    lines.deep_view()[k]
                }),
        decreases n - idx,
    {
        let line = &lines[idx];
        if starts_with_str(line.as_str(), "\"version\":") {
            let mut nl = "  \"version\": \"".to_owned();
            nl.append(new_version);
            nl.append("\",");
            out.push(nl);
        } else {
            out.push(line.clone());
        }
        proof {
            assert(lines.deep_view()[idx as int] == lines@[idx as int]@);
            assert(out.deep_view()[idx as int] == out@[idx as int].deep_view());
        }
        idx += 1;
    }
    out
}

} // verus!

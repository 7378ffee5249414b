//! The four-shape wildcard matcher used by the rule engine and the lint
//! checks: a leading and/or trailing `*` makes a suffix, prefix or substring
//! pattern; anything else must match exactly. This is deliberately not full
//! glob syntax.

use vstd::prelude::*;

verus! {

use crate::text::seq_contains;
use crate::text::seq_starts_with;
use crate::text::seq_ends_with;
use crate::text::str_contains;
use crate::text::str_starts_with;
use crate::text::str_ends_with;
use crate::text::str_eq;
use crate::text::chars_of;
use crate::text::string_of;

/// Whether `name` matches `pat` under the four wildcard shapes:
/// `*mid*` (substring), `*tail` (suffix), `head*` (prefix), exact otherwise.
pub open spec fn spec_matches_pattern(name: Seq<char>, pat: Seq<char>) -> bool {
    if pat.len() >= 2 && pat[0] == '*' && pat[pat.len() - 1] == '*' {
        seq_contains(name, pat.subrange(1, pat.len() - 1))
    } else if pat.len() >= 1 && pat[0] == '*' {
        seq_ends_with(name, pat.skip(1))
    } else if pat.len() >= 1 && pat[pat.len() - 1] == '*' {
        seq_starts_with(name, pat.take(pat.len() - 1))
    } else {
        name == pat
    }
}

/// Whether a file name matches a rule pattern under the four wildcard shapes.
pub fn matches_pattern(file_name: &str, pattern: &str) -> (r: bool)
    ensures
        r == spec_matches_pattern(file_name@, pattern@),
{
    let pv = chars_of(pattern);
    let n = pv.len();
    if n >= 2 && pv[0] == '*' && pv[n - 1] == '*' {
        let mut mid: Vec<char> = Vec::new();
        let mut i: usize = 1;
        while i < n - 1
            invariant
                1 <= i <= n - 1,
                n == pv.len(),
                n >= 2,
                mid@ == pv@.subrange(1, i as int),
            decreases n - i,
        {
            mid.push(pv[i]);
            i = i + 1;
            assert(mid@ =~= pv@.subrange(1, i as int));
        }
        let mid_s = string_of(&mid);
        str_contains(file_name, mid_s.as_str())
    } else if n >= 1 && pv[0] == '*' {
        let mut tail: Vec<char> = Vec::new();
        let mut i: usize = 1;
        while i < n
            invariant
                1 <= i <= n,
                n == pv.len(),
                tail@ == pv@.subrange(1, i as int),
            decreases n - i,
        {
            tail.push(pv[i]);
            i = i + 1;
            assert(tail@ =~= pv@.subrange(1, i as int));
        }
        assert(tail@ =~= pv@.skip(1));
        let tail_s = string_of(&tail);
        str_ends_with(file_name, tail_s.as_str())
    } else if n >= 1 && pv[n - 1] == '*' {
        let mut head: Vec<char> = Vec::new();
        let mut i: usize = 0;
        while i < n - 1
            invariant
                i <= n - 1,
                n == pv.len(),
                n >= 1,
                head@ == pv@.subrange(0, i as int),
            decreases n - i,
        {
            head.push(pv[i]);
            i = i + 1;
            assert(head@ =~= pv@.subrange(0, i as int));
        }
        let head_s = string_of(&head);
        str_starts_with(file_name, head_s.as_str())
    } else {
        str_eq(file_name, pattern)
    }
}

/// Whether one ignored pattern covers `path`: a pattern ending in `/` covers
/// every path containing it (without the slash at its end); any other pattern
/// goes through the wildcard matcher.
pub open spec fn ignore_pattern_hits(path: Seq<char>, p: Seq<char>) -> bool {
    if p.len() >= 1 && p[p.len() - 1] == '/' {
        seq_contains(path, p.take(p.len() - 1))
    } else {
        spec_matches_pattern(path, p)
    }
}

/// Whether `path` falls under any of the ignored patterns.
pub open spec fn spec_should_ignore(path: Seq<char>, pats: Seq<Seq<char>>) -> bool {
    exists|i: int| 0 <= i < pats.len() && #[trigger] ignore_pattern_hits(path, pats[i])
}

/// Whether a path falls under any of the ignored patterns.
pub fn should_ignore_path(path: &str, ignored_patterns: &Vec<String>) -> (r: bool)
    ensures
        r == spec_should_ignore(path@, crate::text::view_strs(ignored_patterns@)),
{
    let ghost pats = crate::text::view_strs(ignored_patterns@);
    proof {
        crate::text::lemma_view_strs(ignored_patterns@);
    }
    let mut i: usize = 0;
    while i < ignored_patterns.len()
        invariant
            i <= ignored_patterns@.len(),
            pats == crate::text::view_strs(ignored_patterns@),
            pats.len() == ignored_patterns@.len(),
            forall|j: int| 0 <= j < ignored_patterns@.len() ==> pats[j]
                == ignored_patterns@[j]@,
            forall|j: int| 0 <= j < i ==> !#[trigger] ignore_pattern_hits(path@, pats[j]),
        decreases ignored_patterns.len() - i,
    {
        let pat = ignored_patterns[i].as_str();
        let pv = chars_of(pat);
        let n = pv.len();
        let hit: bool;
        if n >= 1 && pv[n - 1] == '/' {
            let mut head: Vec<char> = Vec::new();
            let mut k: usize = 0;
            while k < n - 1
                invariant
                    k <= n - 1,
                    n == pv.len(),
                    n >= 1,
                    head@ == pv@.subrange(0, k as int),
                decreases n - k,
            {
                head.push(pv[k]);
                k = k + 1;
                assert(head@ =~= pv@.subrange(0, k as int));
            }
            assert(head@ =~= pats[i as int].take(pats[i as int].len() - 1));
            let head_s = string_of(&head);
            hit = str_contains(path, head_s.as_str());
        } else {
            hit = matches_pattern(path, pat);
        }
        assert(hit == ignore_pattern_hits(path@, pats[i as int]));
        if hit {
            return true;
        }
        i = i + 1;
    }
    false
}

/// Whether `name` ends in one of the script extensions.
pub open spec fn spec_is_script_file(name: Seq<char>) -> bool {
    ||| seq_ends_with(name, ".sh"@)
    ||| seq_ends_with(name, ".py"@)
    ||| seq_ends_with(name, ".js"@)
    ||| seq_ends_with(name, ".ts"@)
    ||| seq_ends_with(name, ".rb"@)
    ||| seq_ends_with(name, ".pl"@)
    ||| seq_ends_with(name, ".php"@)
}

/// Whether a file name ends in one of the extensions the linter treats as a
/// script.
pub fn is_script_file(file_name: &str) -> (r: bool)
    ensures
        r == spec_is_script_file(file_name@),
{
    str_ends_with(file_name, ".sh") || str_ends_with(file_name, ".py") || str_ends_with(
        file_name,
        ".js",
    ) || str_ends_with(file_name, ".ts") || str_ends_with(file_name, ".rb") || str_ends_with(
        file_name,
        ".pl",
    ) || str_ends_with(file_name, ".php")
}

} // verus!

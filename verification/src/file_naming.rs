//! File-naming hygiene: known misspellings of well-known file names, fuzzy
//! matches against the expected names by edit distance, and the plain naming
//! predicates (standard names, temporary files, case conventions).

use vstd::prelude::*;

verus! {

use crate::text::chars_of;
use crate::text::seq_contains;
use crate::text::seq_ends_with;
use crate::text::str_contains;
use crate::text::str_ends_with;
use crate::text::str_eq;
use crate::text::str_to_string;
use crate::text::string_of;
use crate::text::view_strs;

/// The edit distance between two texts: the least number of single-character
/// insertions, deletions and substitutions taking one to the other.
pub open spec fn spec_lev(a: Seq<char>, b: Seq<char>) -> int
    decreases a.len(), b.len(),
{
    if a.len() == 0 {
        b.len() as int
    } else if b.len() == 0 {
        a.len() as int
    } else {
        let del = spec_lev(a.drop_last(), b) + 1;
        let ins = spec_lev(a, b.drop_last()) + 1;
        let sub = spec_lev(a.drop_last(), b.drop_last()) + (if a.last() == b.last() {
            0int
        } else {
            1int
        });
        min3(del, ins, sub)
    }
}

/// The least of three numbers.
pub open spec fn min3(a: int, b: int, c: int) -> int {
    if a <= b && a <= c {
        a
    } else if b <= c {
        b
    } else {
        c
    }
}

/// The edit distance never exceeds the two lengths together.
pub proof fn lemma_lev_bound(a: Seq<char>, b: Seq<char>)
    ensures
        0 <= spec_lev(a, b) <= a.len() + b.len(),
    decreases a.len(), b.len(),
{
    if a.len() > 0 && b.len() > 0 {
        lemma_lev_bound(a.drop_last(), b);
        lemma_lev_bound(a, b.drop_last());
        lemma_lev_bound(a.drop_last(), b.drop_last());
    }
}

/// The edit distance between two strings, by dynamic programming over
/// prefixes.
pub fn levenshtein_distance(s1: &str, s2: &str) -> (r: usize)
    requires
        s1@.len() + s2@.len() < usize::MAX,
    ensures
        r as int == spec_lev(s1@, s2@),
{
    let a = chars_of(s1);
    let b = chars_of(s2);
    let n = a.len();
    let m = b.len();
    let mut prev: Vec<usize> = Vec::new();
    let mut j: usize = 0;
    while j <= m
        invariant
            j <= m + 1,
            m == b@.len(),
            n == a@.len(),
            a@ == s1@,
            b@ == s2@,
            n + m < usize::MAX,
            prev@.len() == j,
            forall|k: int| 0 <= k < j ==> prev@[k] as int == spec_lev(
                a@.take(0),
                b@.take(k),
            ),
        decreases m + 1 - j,
    {
        proof {
            assert(a@.take(0) =~= Seq::<char>::empty());
            assert(b@.take(j as int).len() == j as int);
        }
        prev.push(j);
        j = j + 1;
    }
    let mut i: usize = 1;
    while i <= n
        invariant
            1 <= i <= n + 1,
            m == b@.len(),
            n == a@.len(),
            a@ == s1@,
            b@ == s2@,
            n + m < usize::MAX,
            prev@.len() == m + 1,
            forall|k: int| 0 <= k <= m ==> prev@[k] as int == spec_lev(
                a@.take(i - 1),
                b@.take(k),
            ),
        decreases n + 1 - i,
    {
        let mut cur: Vec<usize> = Vec::new();
        proof {
            assert(b@.take(0) =~= Seq::<char>::empty());
            assert(a@.take(i as int).len() == i as int);
        }
        cur.push(i);
        let mut k: usize = 1;
        while k <= m
            invariant
                1 <= k <= m + 1,
                1 <= i <= n,
                m == b@.len(),
                n == a@.len(),
                a@ == s1@,
                b@ == s2@,
                n + m < usize::MAX,
                prev@.len() == m + 1,
                forall|q: int| 0 <= q <= m ==> prev@[q] as int == spec_lev(
                    a@.take(i - 1),
                    b@.take(q),
                ),
                cur@.len() == k,
                forall|q: int| 0 <= q < k ==> cur@[q] as int == spec_lev(
                    a@.take(i as int),
                    b@.take(q),
                ),
            decreases m + 1 - k,
        {
            let ghost ta = a@.take(i as int);
            let ghost tb = b@.take(k as int);
            proof {
                assert(ta.drop_last() =~= a@.take(i - 1));
                assert(tb.drop_last() =~= b@.take(k - 1));
                assert(ta.last() == a@[i - 1]);
                assert(tb.last() == b@[k - 1]);
                lemma_lev_bound(ta.drop_last(), tb);
                lemma_lev_bound(ta, tb.drop_last());
                lemma_lev_bound(ta.drop_last(), tb.drop_last());
            }
            let cost: usize = if a[i - 1] == b[k - 1] {
                0
            } else {
                1
            };
            let del = prev[k] + 1;
            let ins = cur[k - 1] + 1;
            let sub = prev[k - 1] + cost;
            let d = if del <= ins && del <= sub {
                del
            } else if ins <= sub {
                ins
            } else {
                sub
            };
            assert(d as int == spec_lev(ta, tb));
            cur.push(d);
            k = k + 1;
        }
        prev = cur;
        i = i + 1;
    }
    proof {
        assert(a@.take(n as int) =~= a@);
        assert(b@.take(m as int) =~= b@);
    }
    prev[m]
}

/// A character lowered: an ASCII capital becomes its small form, anything
/// else stays.
pub open spec fn lower_char(c: char) -> char {
    if c == 'A' { 'a' } else if c == 'B' { 'b' } else if c == 'C' { 'c' }
    else if c == 'D' { 'd' } else if c == 'E' { 'e' } else if c == 'F' { 'f' }
    else if c == 'G' { 'g' } else if c == 'H' { 'h' } else if c == 'I' { 'i' }
    else if c == 'J' { 'j' } else if c == 'K' { 'k' } else if c == 'L' { 'l' }
    else if c == 'M' { 'm' } else if c == 'N' { 'n' } else if c == 'O' { 'o' }
    else if c == 'P' { 'p' } else if c == 'Q' { 'q' } else if c == 'R' { 'r' }
    else if c == 'S' { 's' } else if c == 'T' { 't' } else if c == 'U' { 'u' }
    else if c == 'V' { 'v' } else if c == 'W' { 'w' } else if c == 'X' { 'x' }
    else if c == 'Y' { 'y' } else if c == 'Z' { 'z' } else { c }
}

fn lower_char_exec(c: char) -> (r: char)
    ensures
        r == lower_char(c),
{
    if c == 'A' { 'a' } else if c == 'B' { 'b' } else if c == 'C' { 'c' }
    else if c == 'D' { 'd' } else if c == 'E' { 'e' } else if c == 'F' { 'f' }
    else if c == 'G' { 'g' } else if c == 'H' { 'h' } else if c == 'I' { 'i' }
    else if c == 'J' { 'j' } else if c == 'K' { 'k' } else if c == 'L' { 'l' }
    else if c == 'M' { 'm' } else if c == 'N' { 'n' } else if c == 'O' { 'o' }
    else if c == 'P' { 'p' } else if c == 'Q' { 'q' } else if c == 'R' { 'r' }
    else if c == 'S' { 's' } else if c == 'T' { 't' } else if c == 'U' { 'u' }
    else if c == 'V' { 'v' } else if c == 'W' { 'w' } else if c == 'X' { 'x' }
    else if c == 'Y' { 'y' } else if c == 'Z' { 'z' } else { c }
}

/// A text lowered character for character.
pub open spec fn spec_lower(s: Seq<char>) -> Seq<char> {
    s.map_values(|c: char| lower_char(c))
}

/// Lowers every ASCII capital of a string.
pub fn to_ascii_lower(s: &str) -> (r: String)
    ensures
        r@ == spec_lower(s@),
{
    let v = chars_of(s);
    let mut out: Vec<char> = Vec::new();
    let mut i: usize = 0;
    while i < v.len()
        invariant
            i <= v@.len(),
            v@ == s@,
            out@.len() == i,
            forall|j: int| 0 <= j < i ==> out@[j] == lower_char(s@[j]),
        decreases v.len() - i,
    {
        out.push(lower_char_exec(v[i]));
        i = i + 1;
    }
    assert(out@ =~= spec_lower(s@));
    string_of(&out)
}

/// One misnamed file or directory.
#[derive(Debug)]
pub struct NamingIssue {
    pub path: String,
    pub suggested_name: String,
    pub message: String,
    pub severity: String,
    pub is_directory: bool,
}

/// The mathematical form of a naming issue.
#[verifier::ext_equal]
pub struct NamingIssueV {
    pub path: Seq<char>,
    pub suggested_name: Seq<char>,
    pub message: Seq<char>,
    pub severity: Seq<char>,
    pub is_directory: bool,
}

impl View for NamingIssue {
    type V = NamingIssueV;

    open spec fn view(&self) -> NamingIssueV {
        NamingIssueV {
            path: self.path@,
            suggested_name: self.suggested_name@,
            message: self.message@,
            severity: self.severity@,
            is_directory: self.is_directory,
        }
    }
}

/// The mathematical forms of a sequence of naming issues.
pub open spec fn view_naming_issues(a: Seq<NamingIssue>) -> Seq<NamingIssueV>
    decreases a,
{
    if a.len() == 0 {
        Seq::empty()
    } else {
        seq![a[0]@] + view_naming_issues(a.skip(1))
    }
}

proof fn lemma_view_naming_push(a: Seq<NamingIssue>, x: NamingIssue)
    ensures
        view_naming_issues(a.push(x)) == view_naming_issues(a).push(x@),
    decreases a.len(),
{
    if a.len() == 0 {
        assert(a.push(x)[0] == x);
        assert(a.push(x).skip(1) =~= Seq::<NamingIssue>::empty());
        assert(view_naming_issues(Seq::<NamingIssue>::empty())
            == Seq::<NamingIssueV>::empty());
        assert(view_naming_issues(a) == Seq::<NamingIssueV>::empty());
        assert(view_naming_issues(a.push(x)) =~= view_naming_issues(a).push(x@));
    } else {
        lemma_view_naming_push(a.skip(1), x);
        assert(a.push(x).skip(1) =~= a.skip(1).push(x));
        assert(a.push(x)[0] == a[0]);
        assert(view_naming_issues(a.push(x)) =~= view_naming_issues(a).push(x@));
    }
}

/// The correction listed for `name` among the known misspellings, if any.
pub open spec fn lookup_mismatch(
    pairs: Seq<(Seq<char>, Seq<char>)>,
    name: Seq<char>,
) -> Option<Seq<char>>
    decreases pairs.len(),
{
    if pairs.len() == 0 {
        None
    } else if pairs[0].0 == name {
        Some(pairs[0].1)
    } else {
        lookup_mismatch(pairs.skip(1), name)
    }
}

/// The issue raised for a known misspelling.
pub open spec fn exact_issue(name: Seq<char>, correct: Seq<char>, is_dir: bool) -> NamingIssueV {
    NamingIssueV {
        path: name,
        suggested_name: correct,
        message: "Found '"@ + name + "' which should likely be '"@ + correct + "'"@,
        severity: "warning"@,
        is_directory: is_dir,
    }
}

/// The issue raised for a fuzzy match against an expected name.
pub open spec fn fuzzy_issue(name: Seq<char>, expected: Seq<char>, is_dir: bool) -> NamingIssueV {
    NamingIssueV {
        path: name,
        suggested_name: expected,
        message: "Found '"@ + name + "' which looks like a typo of '"@ + expected
            + "' (fuzzy match)"@,
        severity: "warning"@,
        is_directory: is_dir,
    }
}

/// Whether `name` counts as a near-miss of `expected`: the two lengths fit a
/// machine word together, the names differ, and the edit distance of the two,
/// lowered, is within two for a long expected name and one otherwise.
pub open spec fn fuzzy_hit(name: Seq<char>, expected: Seq<char>) -> bool {
    let threshold: int = if expected.len() > 6 {
        2
    } else {
        1
    };
    let d = spec_lev(spec_lower(name), spec_lower(expected));
    name.len() + expected.len() < usize::MAX && name != expected && 0 < d <= threshold
}

/// The fuzzy issues one name raises against the expected names, in order.
pub open spec fn fuzzy_issues(
    name: Seq<char>,
    is_dir: bool,
    expected: Seq<Seq<char>>,
) -> Seq<NamingIssueV>
    decreases expected,
{
    if expected.len() == 0 {
        Seq::empty()
    } else {
        (if fuzzy_hit(name, expected[0]) {
            seq![fuzzy_issue(name, expected[0], is_dir)]
        } else {
            Seq::empty()
        }) + fuzzy_issues(name, is_dir, expected.skip(1))
    }
}

/// The issues one directory entry raises: its known correction when it is a
/// known misspelling, its near-misses among the expected names otherwise.
pub open spec fn entry_issues(
    name: Seq<char>,
    is_dir: bool,
    pairs: Seq<(Seq<char>, Seq<char>)>,
    expected: Seq<Seq<char>>,
) -> Seq<NamingIssueV> {
    match lookup_mismatch(pairs, name) {
        Some(correct) => seq![exact_issue(name, correct, is_dir)],
        None => fuzzy_issues(name, is_dir, expected),
    }
}

/// The issues a list of directory entries raises, in order.
pub open spec fn spec_scan_names(
    entries: Seq<(Seq<char>, bool)>,
    pairs: Seq<(Seq<char>, Seq<char>)>,
    expected: Seq<Seq<char>>,
) -> Seq<NamingIssueV>
    decreases entries,
{
    if entries.len() == 0 {
        Seq::empty()
    } else {
        entry_issues(entries[0].0, entries[0].1, pairs, expected) + spec_scan_names(
            entries.skip(1),
            pairs,
            expected,
        )
    }
}

/// The file-name form of a sequence of name-correction pairs.
pub open spec fn view_pairs(a: Seq<(String, String)>) -> Seq<(Seq<char>, Seq<char>)>
    decreases a,
{
    if a.len() == 0 {
        Seq::empty()
    } else {
        seq![(a[0].0@, a[0].1@)] + view_pairs(a.skip(1))
    }
}

proof fn lemma_view_pairs(a: Seq<(String, String)>)
    ensures
        view_pairs(a).len() == a.len(),
        forall|i: int| 0 <= i < a.len() ==> view_pairs(a)[i] == (a[i].0@, a[i].1@),
    decreases a.len(),
{
    if a.len() > 0 {
        lemma_view_pairs(a.skip(1));
        assert forall|i: int| 0 <= i < a.len() implies view_pairs(a)[i] == (
            a[i].0@,
            a[i].1@,
        ) by {
            if i > 0 {
                assert(view_pairs(a)[i] == view_pairs(a.skip(1))[i - 1]);
                assert(a.skip(1)[i - 1] == a[i]);
            }
        }
    }
}

proof fn lemma_lookup_mismatch_skip(
    pairs: Seq<(Seq<char>, Seq<char>)>,
    name: Seq<char>,
    i: int,
)
    requires
        0 <= i <= pairs.len(),
        forall|j: int| 0 <= j < i ==> pairs[j].0 != name,
    ensures
        lookup_mismatch(pairs, name) == lookup_mismatch(pairs.skip(i), name),
    decreases i,
{
    if i == 0 {
        assert(pairs.skip(0) =~= pairs);
    } else {
        lemma_lookup_mismatch_skip(pairs.skip(1), name, i - 1);
        assert(pairs.skip(1).skip(i - 1) =~= pairs.skip(i));
    }
}

/// Scans well-known file names for misspellings and near-misses.
pub struct FileNamingScanner {
    pub exact_mismatches: Vec<(String, String)>,
    pub expected_names: Vec<String>,
}

impl FileNamingScanner {
    /// The stock scanner: the common plural, extension and casing mistakes of
    /// well-known files, and the list of well-known names.
    pub fn new() -> (r: FileNamingScanner)
        ensures
            view_pairs(r.exact_mismatches@) =~= seq![
                (".devcontainers"@, ".devcontainer"@),
                (".githubs"@, ".github"@),
                ("packages.json"@, "package.json"@),
                ("package.jsn"@, "package.json"@),
                ("docker-compose.yaml"@, "docker-compose.yml"@),
                ("Cargo.toml.lock"@, "Cargo.lock"@),
            ],
            view_strs(r.expected_names@) =~= seq![
                ".devcontainer"@,
                ".github"@,
                ".vscode"@,
                ".gitignore"@,
                ".editorconfig"@,
                "package.json"@,
                "docker-compose.yml"@,
                "Cargo.toml"@,
                "README.md"@,
                "LICENSE"@,
                "Makefile"@,
                "flake.nix"@,
                "devbox.json"@,
            ],
    {
        let exact_mismatches: Vec<(String, String)> = vec![
            (str_to_string(".devcontainers"), str_to_string(".devcontainer")),
            (str_to_string(".githubs"), str_to_string(".github")),
            (str_to_string("packages.json"), str_to_string("package.json")),
            (str_to_string("package.jsn"), str_to_string("package.json")),
            (str_to_string("docker-compose.yaml"), str_to_string("docker-compose.yml")),
            (str_to_string("Cargo.toml.lock"), str_to_string("Cargo.lock")),
        ];
        let expected_names: Vec<String> = vec![
            str_to_string(".devcontainer"),
            str_to_string(".github"),
            str_to_string(".vscode"),
            str_to_string(".gitignore"),
            str_to_string(".editorconfig"),
            str_to_string("package.json"),
            str_to_string("docker-compose.yml"),
            str_to_string("Cargo.toml"),
            str_to_string("README.md"),
            str_to_string("LICENSE"),
            str_to_string("Makefile"),
            str_to_string("flake.nix"),
            str_to_string("devbox.json"),
        ];
        proof {
            lemma_view_pairs(exact_mismatches@);
            crate::text::lemma_view_strs(expected_names@);
        }
        FileNamingScanner { exact_mismatches, expected_names }
    }

    /// The known correction for a file name, if it is a known misspelling.
    pub fn correction_for(&self, name: &str) -> (r: Option<String>)
        ensures
            crate::events::view_opt_str(r) == lookup_mismatch(
                view_pairs(self.exact_mismatches@),
                name@,
            ),
    {
        let ghost pv = view_pairs(self.exact_mismatches@);
        proof {
            lemma_view_pairs(self.exact_mismatches@);
        }
        let mut i: usize = 0;
        while i < self.exact_mismatches.len()
            invariant
                i <= self.exact_mismatches@.len(),
                pv == view_pairs(self.exact_mismatches@),
                pv.len() == self.exact_mismatches@.len(),
                forall|j: int| 0 <= j < pv.len() ==> pv[j] == (
                    self.exact_mismatches@[j].0@,
                    self.exact_mismatches@[j].1@,
                ),
                forall|j: int| 0 <= j < i ==> pv[j].0 != name@,
            decreases self.exact_mismatches.len() - i,
        {
            if str_eq(self.exact_mismatches[i].0.as_str(), name) {
                proof {
                    lemma_lookup_mismatch_skip(pv, name@, i as int);
                    assert(pv.skip(i as int)[0] == pv[i as int]);
                }
                return Some(str_to_string(self.exact_mismatches[i].1.as_str()));
            }
            i = i + 1;
        }
        proof {
            lemma_lookup_mismatch_skip(pv, name@, i as int);
            assert(pv.skip(i as int) =~= Seq::<(Seq<char>, Seq<char>)>::empty());
        }
        None
    }

    /// The issues a list of directory entries raises, each entry a file name
    /// with whether it names a directory: a known misspelling raises its
    /// correction; any other name raises one issue per near-miss among the
    /// expected names.
    pub fn scan_names(&self, entries: &Vec<(String, bool)>) -> (r: Vec<NamingIssue>)
        ensures
            view_naming_issues(r@) == spec_scan_names(
                view_pairs_entries(entries@),
                view_pairs(self.exact_mismatches@),
                view_strs(self.expected_names@),
            ),
    {
        let ghost ev = view_pairs_entries(entries@);
        let ghost pv = view_pairs(self.exact_mismatches@);
        let ghost xv = view_strs(self.expected_names@);
        proof {
            lemma_view_pairs_entries(entries@);
            crate::text::lemma_view_strs(self.expected_names@);
        }
        let mut out: Vec<NamingIssue> = Vec::new();
        let mut i: usize = 0;
        proof {
            assert(ev.skip(0) =~= ev);
            assert(view_naming_issues(out@) =~= Seq::<NamingIssueV>::empty());
        }
        while i < entries.len()
            invariant
                i <= entries@.len(),
                ev == view_pairs_entries(entries@),
                pv == view_pairs(self.exact_mismatches@),
                xv == view_strs(self.expected_names@),
                xv.len() == self.expected_names@.len(),
                forall|j: int| 0 <= j < xv.len() ==> xv[j] == self.expected_names@[j]@,
                ev.len() == entries@.len(),
                forall|j: int| 0 <= j < ev.len() ==> ev[j] == (
                    entries@[j].0@,
                    entries@[j].1,
                ),
                view_naming_issues(out@) + spec_scan_names(ev.skip(i as int), pv, xv)
                    == spec_scan_names(ev, pv, xv),
            decreases entries.len() - i,
        {
            proof {
                assert(ev.skip(i as int)[0] == ev[i as int]);
                assert(ev.skip(i as int).skip(1) =~= ev.skip(i + 1));
            }
            let name = entries[i].0.as_str();
            let is_dir = entries[i].1;
            let ghost pre = out@;
            match self.correction_for(name) {
                Some(correct) => {
                    let mut message = str_to_string("Found '");
                    crate::text::append_str(&mut message, name);
                    crate::text::append_str(&mut message, "' which should likely be '");
                    crate::text::append_str(&mut message, correct.as_str());
                    crate::text::append_str(&mut message, "'");
                    let issue = NamingIssue {
                        path: str_to_string(name),
                        suggested_name: correct,
                        message,
                        severity: str_to_string("warning"),
                        is_directory: is_dir,
                    };
                    proof {
                        lemma_view_naming_push(pre, issue);
                        assert(issue@ =~= exact_issue(
                            ev[i as int].0,
                            lookup_mismatch(pv, ev[i as int].0)->Some_0,
                            ev[i as int].1,
                        ));
                    }
                    out.push(issue);
                    proof {
                        assert(view_naming_issues(out@) =~= view_naming_issues(pre)
                            + entry_issues(ev[i as int].0, ev[i as int].1, pv, xv));
                    }
                },
                None => {
                    let lowered_name = to_ascii_lower(name);
                    let mut e: usize = 0;
                    proof {
                        assert(xv.skip(0) =~= xv);
                        assert(view_naming_issues(out@) =~= view_naming_issues(pre)
                            + Seq::<NamingIssueV>::empty());
                    }
                    while e < self.expected_names.len()
                        invariant
                            e <= self.expected_names@.len(),
                            i < entries@.len(),
                            ev == view_pairs_entries(entries@),
                            pv == view_pairs(self.exact_mismatches@),
                            xv == view_strs(self.expected_names@),
                            xv.len() == self.expected_names@.len(),
                            forall|j: int| 0 <= j < xv.len() ==> xv[j]
                                == self.expected_names@[j]@,
                            ev.len() == entries@.len(),
                            forall|j: int| 0 <= j < ev.len() ==> ev[j] == (
                                entries@[j].0@,
                                entries@[j].1,
                            ),
                            ev[i as int] == (entries@[i as int].0@, entries@[i as int].1),
                            name@ == entries@[i as int].0@,
                            is_dir == entries@[i as int].1,
                            lowered_name@ == spec_lower(name@),
                            view_naming_issues(out@) + fuzzy_issues(
                                ev[i as int].0,
                                ev[i as int].1,
                                xv.skip(e as int),
                            ) == view_naming_issues(pre) + fuzzy_issues(
                                ev[i as int].0,
                                ev[i as int].1,
                                xv,
                            ),
                        decreases self.expected_names.len() - e,
                    {
                        proof {
                            assert(xv.skip(e as int)[0] == xv[e as int]);
                            assert(xv.skip(e as int).skip(1) =~= xv.skip(e + 1));
                        }
                        let expected = self.expected_names[e].as_str();
                        let hit: bool;
                        let name_len = name.unicode_len();
                        let expected_len = expected.unicode_len();
                        if name_len >= usize::MAX - expected_len {
                            hit = false;
                        } else if str_eq(name, expected) {
                            hit = false;
                        } else {
                            let lowered_expected = to_ascii_lower(expected);
                            proof {
                                assert(spec_lower(name@).len() == name@.len());
                                assert(spec_lower(expected@).len() == expected@.len());
                            }
                            let distance = levenshtein_distance(
                                lowered_name.as_str(),
                                lowered_expected.as_str(),
                            );
                            let threshold: usize = if expected_len > 6 {
                                2
                            } else {
                                1
                            };
                            hit = distance > 0 && distance <= threshold;
                        }
                        assert(hit == fuzzy_hit(ev[i as int].0, xv[e as int]));
                        if hit {
                            let mut message = str_to_string("Found '");
                            crate::text::append_str(&mut message, name);
                            crate::text::append_str(
                                &mut message,
                                "' which looks like a typo of '",
                            );
                            crate::text::append_str(&mut message, expected);
                            crate::text::append_str(&mut message, "' (fuzzy match)");
                            let issue = NamingIssue {
                                path: str_to_string(name),
                                suggested_name: str_to_string(expected),
                                message,
                                severity: str_to_string("warning"),
                                is_directory: is_dir,
                            };
                            let ghost mid = out@;
                            proof {
                                lemma_view_naming_push(mid, issue);
                                assert(issue@ =~= fuzzy_issue(
                                    ev[i as int].0,
                                    xv[e as int],
                                    ev[i as int].1,
                                ));
                            }
                            out.push(issue);
                        }
                        proof {
                            assert(view_naming_issues(out@) + fuzzy_issues(
                                ev[i as int].0,
                                ev[i as int].1,
                                xv.skip(e + 1),
                            ) =~= view_naming_issues(pre) + fuzzy_issues(
                                ev[i as int].0,
                                ev[i as int].1,
                                xv,
                            ));
                        }
                        e = e + 1;
                    }
                    proof {
                        assert(xv.skip(self.expected_names@.len() as int)
                            =~= Seq::<Seq<char>>::empty());
                        assert(view_naming_issues(out@) =~= view_naming_issues(pre)
                            + entry_issues(ev[i as int].0, ev[i as int].1, pv, xv));
                    }
                },
            }
            proof {
                assert(view_naming_issues(out@) + spec_scan_names(ev.skip(i + 1), pv, xv)
                    =~= view_naming_issues(pre) + spec_scan_names(ev.skip(i as int), pv, xv));
            }
            i = i + 1;
        }
        proof {
            assert(ev.skip(entries@.len() as int) =~= Seq::<(Seq<char>, bool)>::empty());
            assert(view_naming_issues(out@) =~= spec_scan_names(ev, pv, xv));
        }
        out
    }
}

/// The file-name form of a sequence of directory entries.
pub open spec fn view_pairs_entries(a: Seq<(String, bool)>) -> Seq<(Seq<char>, bool)>
    decreases a,
{
    if a.len() == 0 {
        Seq::empty()
    } else {
        seq![(a[0].0@, a[0].1)] + view_pairs_entries(a.skip(1))
    }
}

proof fn lemma_view_pairs_entries(a: Seq<(String, bool)>)
    ensures
        view_pairs_entries(a).len() == a.len(),
        forall|i: int| 0 <= i < a.len() ==> view_pairs_entries(a)[i] == (a[i].0@, a[i].1),
    decreases a.len(),
{
    if a.len() > 0 {
        lemma_view_pairs_entries(a.skip(1));
        assert forall|i: int| 0 <= i < a.len() implies view_pairs_entries(a)[i] == (
            a[i].0@,
            a[i].1,
        ) by {
            if i > 0 {
                assert(view_pairs_entries(a)[i] == view_pairs_entries(a.skip(1))[i - 1]);
                assert(a.skip(1)[i - 1] == a[i]);
            }
        }
    }
}

/// Whether `c` is an ASCII capital letter.
pub open spec fn is_upper(c: char) -> bool {
    'A' <= c && c <= 'Z'
}

/// Whether `c` is an ASCII small letter.
pub open spec fn is_lower(c: char) -> bool {
    'a' <= c && c <= 'z'
}

/// The plain naming conventions: standard names, temporary files, case
/// styles, and accepted extensions.
pub struct FileNamingRule {
    pub standard_names: Vec<String>,
}

/// The list of standard file names the conventions accept as they are.
pub open spec fn spec_standard_names() -> Seq<Seq<char>> {
    seq![
        ".devcontainer"@,
        ".github"@,
        ".vscode"@,
        ".gitignore"@,
        ".editorconfig"@,
        "package.json"@,
        "docker-compose.yml"@,
        "Cargo.toml"@,
        "README.md"@,
        "LICENSE"@,
        "Makefile"@,
        "flake.nix"@,
        "devbox.json"@,
    ]
}

/// Whether a file name ends in one of the source extensions the conventions
/// accept.
pub open spec fn spec_has_valid_extension(name: Seq<char>) -> bool {
    ||| seq_ends_with(name, ".ts"@)
    ||| seq_ends_with(name, ".js"@)
    ||| seq_ends_with(name, ".py"@)
    ||| seq_ends_with(name, ".rs"@)
    ||| seq_ends_with(name, ".md"@)
    ||| seq_ends_with(name, ".json"@)
    ||| seq_ends_with(name, ".toml"@)
    ||| seq_ends_with(name, ".yml"@)
    ||| seq_ends_with(name, ".yaml"@)
    ||| seq_ends_with(name, ".sh"@)
}

/// Whether a file name marks a temporary or backup file.
pub open spec fn spec_is_temporary(name: Seq<char>) -> bool {
    seq_ends_with(name, ".tmp"@) || seq_ends_with(name, ".bak"@) || seq_ends_with(
        name,
        "~"@,
    )
}

/// Whether a file name is in the preferred kebab case: only small letters,
/// digits, hyphens and dots.
pub open spec fn spec_preferred_case(name: Seq<char>) -> bool {
    forall|i: int|
        0 <= i < name.len() ==> (is_lower(#[trigger] name[i]) || ('0' <= name[i] && name[i]
            <= '9') || name[i] == '-' || name[i] == '.')
}

/// Whether a file name is valid: a standard name as it is, or one without
/// blanks, without a trailing tilde, and without capitals.
pub open spec fn spec_valid_name(name: Seq<char>) -> bool {
    ||| spec_standard_names().contains(name)
    ||| (!seq_contains(name, " "@) && !seq_ends_with(name, "~"@) && (forall|i: int|
        0 <= i < name.len() ==> !is_upper(#[trigger] name[i])))
}

impl FileNamingRule {
    /// The stock conventions, over the standard file names.
    pub fn new() -> (r: FileNamingRule)
        ensures
            view_strs(r.standard_names@) == spec_standard_names(),
    {
        let standard_names: Vec<String> = vec![
            str_to_string(".devcontainer"),
            str_to_string(".github"),
            str_to_string(".vscode"),
            str_to_string(".gitignore"),
            str_to_string(".editorconfig"),
            str_to_string("package.json"),
            str_to_string("docker-compose.yml"),
            str_to_string("Cargo.toml"),
            str_to_string("README.md"),
            str_to_string("LICENSE"),
            str_to_string("Makefile"),
            str_to_string("flake.nix"),
            str_to_string("devbox.json"),
        ];
        proof {
            crate::text::lemma_view_strs(standard_names@);
            assert(view_strs(standard_names@) =~= spec_standard_names());
        }
        FileNamingRule { standard_names }
    }

    /// Whether the name is one of the standard file names, exactly.
    pub fn is_standard_file(&self, name: &str) -> (r: bool)
        ensures
            r == view_strs(self.standard_names@).contains(name@),
    {
        crate::text::any_str_eq(&self.standard_names, name)
    }

    /// Whether the name ends in one of the accepted source extensions.
    pub fn has_valid_extension(&self, name: &str) -> (r: bool)
        ensures
            r == spec_has_valid_extension(name@),
    {
        str_ends_with(name, ".ts") || str_ends_with(name, ".js") || str_ends_with(
            name,
            ".py",
        ) || str_ends_with(name, ".rs") || str_ends_with(name, ".md") || str_ends_with(
            name,
            ".json",
        ) || str_ends_with(name, ".toml") || str_ends_with(name, ".yml") || str_ends_with(
            name,
            ".yaml",
        ) || str_ends_with(name, ".sh")
    }

    /// Whether the name marks a temporary or backup file.
    pub fn is_temporary_file(&self, name: &str) -> (r: bool)
        ensures
            r == spec_is_temporary(name@),
    {
        str_ends_with(name, ".tmp") || str_ends_with(name, ".bak") || str_ends_with(
            name,
            "~",
        )
    }

    /// Whether the name is in the preferred kebab case.
    pub fn is_preferred_case(&self, name: &str) -> (r: bool)
        ensures
            r == spec_preferred_case(name@),
    {
        let v = chars_of(name);
        let mut i: usize = 0;
        while i < v.len()
            invariant
                i <= v@.len(),
                v@ == name@,
                forall|j: int|
                    0 <= j < i ==> (is_lower(#[trigger] name@[j]) || ('0' <= name@[j]
                        && name@[j] <= '9') || name@[j] == '-' || name@[j] == '.'),
            decreases v.len() - i,
        {
            let c = v[i];
            let ok = ('a' <= c && c <= 'z') || ('0' <= c && c <= '9') || c == '-' || c
                == '.';
            if !ok {
                return false;
            }
            i = i + 1;
        }
        true
    }

    /// Whether the name's casing is acceptable for the given language: it
    /// must start with a small letter (camel case and kebab case both do).
    pub fn is_acceptable_case(&self, name: &str, _language: &str) -> (r: bool)
        ensures
            r == (name@.len() > 0 && is_lower(name@[0])),
    {
        let n = name.unicode_len();
        if n == 0 {
            return false;
        }
        let c = name.get_char(0);
        'a' <= c && c <= 'z'
    }

    /// Whether the name is valid: a standard name, or one without blanks,
    /// a trailing tilde, or capitals.
    pub fn is_valid_name(&self, name: &str) -> (r: bool)
        ensures
            view_strs(self.standard_names@) == spec_standard_names() ==> r
                == spec_valid_name(name@),
    {
        if self.is_standard_file(name) {
            return true;
        }
        if str_contains(name, " ") || str_ends_with(name, "~") {
            return false;
        }
        let v = chars_of(name);
        let mut i: usize = 0;
        while i < v.len()
            invariant
                i <= v@.len(),
                v@ == name@,
                !view_strs(self.standard_names@).contains(name@),
                forall|j: int| 0 <= j < i ==> !is_upper(#[trigger] name@[j]),
            decreases v.len() - i,
        {
            let c = v[i];
            if 'A' <= c && c <= 'Z' {
                return false;
            }
            i = i + 1;
        }
        true
    }
}

} // verus!

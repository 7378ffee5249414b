//! pnpm enforcement for a package directory: forbidden lockfiles of other
//! package managers, and package scripts that invoke npm or yarn.

use vstd::prelude::*;

verus! {

use crate::text::is_space;
use crate::text::seq_matches_at;
use crate::text::seq_starts_with;
use crate::text::spec_lines;
use crate::text::spec_trim;
use crate::text::str_to_string;

/// Which lockfile marker files exist in the probed directory.
#[derive(Debug, Clone, Copy, PartialEq, Eq, Structural)]
pub struct LockfileMarkers {
    pub has_npm_lock: bool,
    pub has_bun_lock: bool,
    pub has_bun_lockb: bool,
    pub has_yarn_lock: bool,
    pub has_pnpm_lock: bool,
}

/// One forbidden or missing lockfile.
#[derive(Debug)]
pub struct LockfileViolation {
    pub file: String,
    pub package_manager: String,
    pub severity: String,
    pub message: String,
}

/// The mathematical form of a lockfile violation.
#[verifier::ext_equal]
pub struct LockfileViolationV {
    pub file: Seq<char>,
    pub package_manager: Seq<char>,
    pub severity: Seq<char>,
    pub message: Seq<char>,
}

impl View for LockfileViolation {
    type V = LockfileViolationV;

    open spec fn view(&self) -> LockfileViolationV {
        LockfileViolationV {
            file: self.file@,
            package_manager: self.package_manager@,
            severity: self.severity@,
            message: self.message@,
        }
    }
}

/// The mathematical forms of a sequence of lockfile violations.
pub open spec fn view_lock_violations(a: Seq<LockfileViolation>) -> Seq<LockfileViolationV>
    decreases a,
{
    if a.len() == 0 {
        Seq::empty()
    } else {
        seq![a[0]@] + view_lock_violations(a.skip(1))
    }
}

proof fn lemma_view_lock_violations(a: Seq<LockfileViolation>)
    ensures
        view_lock_violations(a).len() == a.len(),
        forall|i: int| 0 <= i < a.len() ==> view_lock_violations(a)[i] == a[i]@,
    decreases a.len(),
{
    if a.len() > 0 {
        lemma_view_lock_violations(a.skip(1));
        assert forall|i: int| 0 <= i < a.len() implies view_lock_violations(a)[i]
            == a[i]@ by {
            if i > 0 {
                assert(view_lock_violations(a)[i] == view_lock_violations(a.skip(1))[i - 1]);
                assert(a.skip(1)[i - 1] == a[i]);
            }
        }
    }
}

/// What checking the lockfiles of a directory finds.
#[derive(Debug)]
pub struct LockfileValidation {
    pub has_pnpm_lock: bool,
    pub violations: Vec<LockfileViolation>,
}

/// A lockfile violation, the fields as given.
pub open spec fn lock_violation(
    file: Seq<char>,
    pm: Seq<char>,
    severity: Seq<char>,
    message: Seq<char>,
) -> LockfileViolationV {
    LockfileViolationV { file, package_manager: pm, severity, message }
}

/// What the lockfile check reports for the given markers: an error for each
/// lockfile of another package manager, and, when no other manager's lockfile
/// is present but pnpm's is missing too, a warning asking for it.
pub open spec fn spec_lockfile_violations(m: LockfileMarkers) -> Seq<LockfileViolationV> {
    let others = (if m.has_npm_lock {
        seq![
            lock_violation(
                "package-lock.json"@,
                "npm"@,
                "error"@,
                "npm lockfile detected. Use pnpm instead."@,
            ),
        ]
    } else {
        Seq::empty()
    }) + (if m.has_bun_lock {
        seq![
            lock_violation(
                "bun.lock"@,
                "bun"@,
                "error"@,
                "bun lockfile detected. Use pnpm instead."@,
            ),
        ]
    } else {
        Seq::empty()
    }) + (if m.has_bun_lockb {
        seq![
            lock_violation(
                "bun.lockb"@,
                "bun"@,
                "error"@,
                "bun lockfile detected. Use pnpm instead."@,
            ),
        ]
    } else {
        Seq::empty()
    }) + (if m.has_yarn_lock {
        seq![
            lock_violation(
                "yarn.lock"@,
                "yarn"@,
                "error"@,
                "yarn lockfile detected. Use pnpm instead."@,
            ),
        ]
    } else {
        Seq::empty()
    });
    if !m.has_pnpm_lock && others.len() == 0 {
        others + seq![
            lock_violation(
                "pnpm-lock.yaml"@,
                "pnpm"@,
                "warn"@,
                "pnpm-lock.yaml not found. Run 'pnpm install' to generate it."@,
            ),
        ]
    } else {
        others
    }
}

/// Whether `c` is a word character in the regex sense.
pub open spec fn is_word_char(c: char) -> bool {
    ('a' <= c && c <= 'z') || ('A' <= c && c <= 'Z') || ('0' <= c && c <= '9') || c == '_'
}

fn is_word_char_exec(c: char) -> (r: bool)
    ensures
        r == is_word_char(c),
{
    ('a' <= c && c <= 'z') || ('A' <= c && c <= 'Z') || ('0' <= c && c <= '9') || c == '_'
}

/// Whether the package manager named `name` is invoked at position `i` of the
/// line, with one of the four commands `run`, `install`, `test`, `build`
/// after at least one blank: the name on a word boundary, blanks, and the
/// command word starting at `j`.
pub open spec fn pm_cmd_at(line: Seq<char>, name: Seq<char>, i: int, j: int) -> bool {
    &&& 0 <= i
    &&& i + name.len() <= line.len()
    &&& line.subrange(i, i + name.len()) == name
    &&& (i == 0 || !is_word_char(line[i - 1]))
    &&& i + name.len() < j <= line.len()
    &&& (forall|k: int| i + name.len() <= k < j ==> is_space(line[k]))
    &&& (seq_starts_with(line.skip(j), "run"@) || seq_starts_with(line.skip(j), "install"@)
        || seq_starts_with(line.skip(j), "test"@) || seq_starts_with(line.skip(j), "build"@))
}

/// Whether the line invokes the package manager named `name` with one of the
/// four commands.
pub open spec fn pm_cmd_match(line: Seq<char>, name: Seq<char>) -> bool {
    exists|i: int, j: int| pm_cmd_at(line, name, i, j)
}

fn starts_cmd_word(line: &Vec<char>, j: usize) -> (r: bool)
    requires
        j <= line.len(),
    ensures
        r == (seq_starts_with(line@.skip(j as int), "run"@) || seq_starts_with(
            line@.skip(j as int),
            "install"@,
        ) || seq_starts_with(line@.skip(j as int), "test"@) || seq_starts_with(
            line@.skip(j as int),
            "build"@,
        )),
{
    let rest = crate::text::string_of_suffix(line, j);
    crate::text::str_starts_with(rest.as_str(), "run") || crate::text::str_starts_with(
        rest.as_str(),
        "install",
    ) || crate::text::str_starts_with(rest.as_str(), "test") || crate::text::str_starts_with(
        rest.as_str(),
        "build",
    )
}

/// Whether the line invokes the package manager named `name` with one of the
/// four commands, on a word boundary.
pub fn line_has_pm_cmd(line: &Vec<char>, name: &Vec<char>) -> (r: bool)
    requires
        name.len() > 0,
    ensures
        r == pm_cmd_match(line@, name@),
{
    let n = line.len();
    let m = name.len();
    if m > n {
        assert(forall|i: int, j: int| !pm_cmd_at(line@, name@, i, j));
        return false;
    }
    let last = n - m;
    let mut i: usize = 0;
    while i <= last
        invariant
            i <= last + 1,
            last == n - m,
            n == line@.len(),
            m == name@.len(),
            0 < m <= n,
            forall|ii: int, j: int| 0 <= ii < i ==> !pm_cmd_at(line@, name@, ii, j),
        decreases last + 1 - i,
    {
        let boundary = i == 0 || !is_word_char_exec(line[i - 1]);
        if boundary && crate::text::matches_at(line, name, i) {
            // Scan the blanks after the name; the command word can only start
            // at the first position that is not blank, since none of the four
            // command words starts with a blank.
            let p = i + m;
            let mut j: usize = p;
            let mut found = false;
            let mut stopped = false;
            while j < n && !found && !stopped
                invariant
                    p <= j <= n,
                    n == line@.len(),
                    m == name@.len(),
                    p == i + m,
                    i + m <= n,
                    seq_matches_at(line@, name@, i as int),
                    i == 0 || !is_word_char(line@[i - 1]),
                    forall|k: int| p <= k < j ==> is_space(line@[k]),
                    stopped ==> j < n && !is_space(line@[j as int]),
                    !found ==> forall|jj: int|
                        p < jj <= j ==> !(seq_starts_with(line@.skip(jj), "run"@)
                            || seq_starts_with(line@.skip(jj), "install"@) || seq_starts_with(
                            line@.skip(jj),
                            "test"@,
                        ) || seq_starts_with(line@.skip(jj), "build"@)),
                    found ==> pm_cmd_match(line@, name@),
                decreases n - j, 1int - (if stopped { 1int } else { 0int }),
            {
                if crate::text::is_space_exec(line[j]) {
                    let j2 = j + 1;
                    if starts_cmd_word(line, j2) {
                        proof {
                            assert(line@.subrange(i as int, i + m) == name@);
                            assert(pm_cmd_at(line@, name@, i as int, j2 as int));
                        }
                        found = true;
                    }
                    j = j2;
                } else {
                    stopped = true;
                }
            }
            if found {
                return true;
            }
            proof {
                assert forall|jj: int| !pm_cmd_at(line@, name@, i as int, jj) by {
                    if p < jj <= line@.len() && pm_cmd_at(line@, name@, i as int, jj) {
                        if jj <= j {
                            assert(!(seq_starts_with(line@.skip(jj), "run"@)
                                || seq_starts_with(line@.skip(jj), "install"@)
                                || seq_starts_with(line@.skip(jj), "test"@)
                                || seq_starts_with(line@.skip(jj), "build"@)));
                        } else {
                            if stopped {
                                assert(!is_space(line@[j as int]));
                                assert(is_space(line@[j as int]));
                            } else {
                                assert(j >= n);
                            }
                        }
                    }
                }
            }
        } else {
            proof {
                assert forall|jj: int| !pm_cmd_at(line@, name@, i as int, jj) by {
                    if pm_cmd_at(line@, name@, i as int, jj) {
                        assert(line@.subrange(i as int, i + m) == name@);
                        assert(i as int == 0 || !is_word_char(line@[i - 1]));
                    }
                }
            }
        }
        i = i + 1;
    }
    proof {
        assert forall|ii: int, jj: int| !pm_cmd_at(line@, name@, ii, jj) by {
            if pm_cmd_at(line@, name@, ii, jj) {
                assert(ii + m <= n);
                assert(0 <= ii < i);
            }
        }
    }
    false
}

/// One script line that invokes another package manager.
#[derive(Debug)]
pub struct ScriptViolation {
    pub line: usize,
    pub package_manager: String,
    pub message: String,
}

/// The mathematical form of a script violation.
#[verifier::ext_equal]
pub struct ScriptViolationV {
    pub line: int,
    pub package_manager: Seq<char>,
    pub message: Seq<char>,
}

impl View for ScriptViolation {
    type V = ScriptViolationV;

    open spec fn view(&self) -> ScriptViolationV {
        ScriptViolationV {
            line: self.line as int,
            package_manager: self.package_manager@,
            message: self.message@,
        }
    }
}

/// The mathematical forms of a sequence of script violations.
pub open spec fn view_script_violations(a: Seq<ScriptViolation>) -> Seq<ScriptViolationV>
    decreases a,
{
    if a.len() == 0 {
        Seq::empty()
    } else {
        seq![a[0]@] + view_script_violations(a.skip(1))
    }
}

/// The script violations of the given lines, numbered from `idx + 1`: one for
/// each line invoking npm with a command, one for each invoking yarn.
pub open spec fn spec_script_violations_from(lines: Seq<Seq<char>>, idx: int) -> Seq<
    ScriptViolationV,
>
    decreases lines,
{
    if lines.len() == 0 {
        Seq::empty()
    } else {
        (if pm_cmd_match(lines[0], "npm"@) {
            seq![
                ScriptViolationV {
                    line: idx + 1,
                    package_manager: "npm"@,
                    message: "npm command detected: "@ + spec_trim(lines[0]),
                },
            ]
        } else {
            Seq::empty()
        }) + (if pm_cmd_match(lines[0], "yarn"@) {
            seq![
                ScriptViolationV {
                    line: idx + 1,
                    package_manager: "yarn"@,
                    message: "yarn command detected: "@ + spec_trim(lines[0]),
                },
            ]
        } else {
            Seq::empty()
        }) + spec_script_violations_from(lines.skip(1), idx + 1)
    }
}

/// The script violations of a package manifest's text, line by line.
pub open spec fn spec_script_violations(content: Seq<char>) -> Seq<ScriptViolationV> {
    spec_script_violations_from(spec_lines(content), 0)
}

/// The pnpm lockfile rules.
pub struct PnpmLockfileRuleSet;

impl PnpmLockfileRuleSet {
    /// The lockfile findings for the given markers: an error per lockfile of
    /// another package manager; a warning when no lockfile at all is present.
    pub fn lockfile_validation_from_markers(m: &LockfileMarkers) -> (r: LockfileValidation)
        ensures
            r.has_pnpm_lock == m.has_pnpm_lock,
            view_lock_violations(r.violations@) == spec_lockfile_violations(*m),
    {
        let mut out: Vec<LockfileViolation> = Vec::new();
        if m.has_npm_lock {
            out.push(
                LockfileViolation {
                    file: str_to_string("package-lock.json"),
                    package_manager: str_to_string("npm"),
                    severity: str_to_string("error"),
                    message: str_to_string("npm lockfile detected. Use pnpm instead."),
                },
            );
        }
        if m.has_bun_lock {
            out.push(
                LockfileViolation {
                    file: str_to_string("bun.lock"),
                    package_manager: str_to_string("bun"),
                    severity: str_to_string("error"),
                    message: str_to_string("bun lockfile detected. Use pnpm instead."),
                },
            );
        }
        if m.has_bun_lockb {
            out.push(
                LockfileViolation {
                    file: str_to_string("bun.lockb"),
                    package_manager: str_to_string("bun"),
                    severity: str_to_string("error"),
                    message: str_to_string("bun lockfile detected. Use pnpm instead."),
                },
            );
        }
        if m.has_yarn_lock {
            out.push(
                LockfileViolation {
                    file: str_to_string("yarn.lock"),
                    package_manager: str_to_string("yarn"),
                    severity: str_to_string("error"),
                    message: str_to_string("yarn lockfile detected. Use pnpm instead."),
                },
            );
        }
        if !m.has_pnpm_lock && out.len() == 0 {
            out.push(
                LockfileViolation {
                    file: str_to_string("pnpm-lock.yaml"),
                    package_manager: str_to_string("pnpm"),
                    severity: str_to_string("warn"),
                    message: str_to_string(
                        "pnpm-lock.yaml not found. Run 'pnpm install' to generate it.",
                    ),
                },
            );
        }
        proof {
            lemma_view_lock_violations(out@);
            assert(view_lock_violations(out@) =~= spec_lockfile_violations(*m));
        }
        LockfileValidation { has_pnpm_lock: m.has_pnpm_lock, violations: out }
    }

    /// Checks the directory at `project_path` for forbidden lockfiles,
    /// probing the disk for each marker file. What the probe found on disk
    /// decides the outcome; the findings built from it follow
    /// `lockfile_validation_from_markers` exactly.
    pub fn check_forbidden_lockfiles(project_path: &str) -> (r: Result<
        LockfileValidation,
        String,
    >)
        ensures
            r is Ok,
    {
        let m = LockfileMarkers {
            has_npm_lock: crate::fsprobe::child_exists(project_path, "package-lock.json"),
            has_bun_lock: crate::fsprobe::child_exists(project_path, "bun.lock"),
            has_bun_lockb: crate::fsprobe::child_exists(project_path, "bun.lockb"),
            has_yarn_lock: crate::fsprobe::child_exists(project_path, "yarn.lock"),
            has_pnpm_lock: crate::fsprobe::child_exists(project_path, "pnpm-lock.yaml"),
        };
        Ok(Self::lockfile_validation_from_markers(&m))
    }

    /// Checks a package manifest's text for scripts that invoke npm or yarn
    /// with a command, line by line.
    pub fn check_scripts_for_package_managers(package_json_content: &str) -> (r: Result<
        Vec<ScriptViolation>,
        String,
    >)
        ensures
            match r {
                Ok(v) => view_script_violations(v@) == spec_script_violations(
                    package_json_content@,
                ),
                Err(_) => false,
            },
    {
        let lines = crate::text::lines_of(package_json_content);
        let ghost lv = crate::text::view_strs(lines@);
        proof {
            crate::text::lemma_view_strs(lines@);
        }
        let npm = crate::text::chars_of("npm");
        let yarn = crate::text::chars_of("yarn");
        proof {
            reveal_strlit("npm");
            reveal_strlit("yarn");
        }
        let mut out: Vec<ScriptViolation> = Vec::new();
        let mut i: usize = 0;
        proof {
            assert(lv.skip(0) =~= lv);
            assert(view_script_violations(out@) =~= Seq::<ScriptViolationV>::empty());
        }
        while i < lines.len()
            invariant
                i <= lines@.len(),
                lv == crate::text::view_strs(lines@),
                lv.len() == lines@.len(),
                forall|j: int| 0 <= j < lv.len() ==> lv[j] == lines@[j]@,
                npm@ == "npm"@,
                yarn@ == "yarn"@,
                npm@.len() > 0,
                yarn@.len() > 0,
                view_script_violations(out@) + spec_script_violations_from(
                    lv.skip(i as int),
                    i as int,
                ) == spec_script_violations_from(lv, 0),
            decreases lines.len() - i,
        {
            proof {
                assert(lv.skip(i as int)[0] == lv[i as int]);
                assert(lv.skip(i as int).skip(1) =~= lv.skip(i + 1));
            }
            let line = crate::text::chars_of(lines[i].as_str());
            let ghost pre = out@;
            if line_has_pm_cmd(&line, &npm) {
                let trimmed = crate::text::trim_chars(&line);
                let body = crate::text::string_of(&trimmed);
                let mut msg = str_to_string("npm command detected: ");
                crate::text::append_str(&mut msg, body.as_str());
                let v = ScriptViolation {
                    line: i + 1,
                    package_manager: str_to_string("npm"),
                    message: msg,
                };
                proof {
                    lemma_view_sv_push(pre, v);
                }
                out.push(v);
            }
            let ghost mid = out@;
            if line_has_pm_cmd(&line, &yarn) {
                let trimmed = crate::text::trim_chars(&line);
                let body = crate::text::string_of(&trimmed);
                let mut msg = str_to_string("yarn command detected: ");
                crate::text::append_str(&mut msg, body.as_str());
                let v = ScriptViolation {
                    line: i + 1,
                    package_manager: str_to_string("yarn"),
                    message: msg,
                };
                proof {
                    lemma_view_sv_push(mid, v);
                }
                out.push(v);
            }
            proof {
                assert(view_script_violations(out@) + spec_script_violations_from(
                    lv.skip(i + 1),
                    i as int + 1,
                ) =~= view_script_violations(pre) + spec_script_violations_from(
                    lv.skip(i as int),
                    i as int,
                ));
            }
            i = i + 1;
        }
        proof {
            assert(lv.skip(lines@.len() as int) =~= Seq::<Seq<char>>::empty());
            assert(view_script_violations(out@) =~= spec_script_violations_from(lv, 0));
        }
        Ok(out)
    }
}

proof fn lemma_view_sv_push(a: Seq<ScriptViolation>, x: ScriptViolation)
    ensures
        view_script_violations(a.push(x)) == view_script_violations(a).push(x@),
    decreases a.len(),
{
    if a.len() == 0 {
        assert(a.push(x)[0] == x);
        assert(a.push(x).skip(1) =~= Seq::<ScriptViolation>::empty());
        assert(view_script_violations(Seq::<ScriptViolation>::empty())
            == Seq::<ScriptViolationV>::empty());
        assert(view_script_violations(a) == Seq::<ScriptViolationV>::empty());
        assert(view_script_violations(a.push(x)) =~= view_script_violations(a).push(x@));
    } else {
        lemma_view_sv_push(a.skip(1), x);
        assert(a.push(x).skip(1) =~= a.skip(1).push(x));
        assert(a.push(x)[0] == a[0]);
        assert(view_script_violations(a.push(x)) =~= view_script_violations(a).push(x@));
    }
}

} // verus!

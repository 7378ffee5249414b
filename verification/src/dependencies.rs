//! Dependency freshness: the record of an outdated dependency, the severity
//! each kind of version lag carries, and the message reported for it.

use vstd::prelude::*;

verus! {

use crate::text::str_to_string;
use crate::text::append_str;

/// How far behind a dependency is.
#[derive(Debug, Clone, Copy, PartialEq, Eq, Structural)]
pub enum VersionType {
    Major,
    Minor,
    Patch,
}

/// The severity of a dependency issue.
#[derive(Debug, Clone, Copy, PartialEq, Eq, Structural)]
pub enum Severity {
    Error,
    Warning,
    Info,
}

/// One dependency found behind its latest version.
#[derive(Debug)]
pub struct OutdatedDependency {
    pub name: String,
    pub current_version: String,
    pub latest_version: String,
    pub version_type: VersionType,
    pub package_manager: String,
    pub file_path: String,
}

/// One reported dependency issue.
#[derive(Debug)]
pub struct DependencyIssue {
    pub name: String,
    pub current_version: String,
    pub latest_version: String,
    pub version_type: VersionType,
    pub package_manager: String,
    pub file_path: String,
    pub severity: Severity,
    pub message: String,
}

/// The severity a version lag carries: a major lag is an error, a minor one a
/// warning, a patch lag informational.
pub open spec fn spec_severity_of(t: VersionType) -> Severity {
    match t {
        VersionType::Major => Severity::Error,
        VersionType::Minor => Severity::Warning,
        VersionType::Patch => Severity::Info,
    }
}

/// The label of a version lag in the report.
pub open spec fn spec_version_label(t: VersionType) -> Seq<char> {
    match t {
        VersionType::Major => "MAJOR"@,
        VersionType::Minor => "minor"@,
        VersionType::Patch => "patch"@,
    }
}

/// The verb of a version lag in the report.
pub open spec fn spec_version_action(t: VersionType) -> Seq<char> {
    match t {
        VersionType::Major => "is significantly outdated"@,
        VersionType::Minor => "has a minor update available"@,
        VersionType::Patch => "has a patch update available"@,
    }
}

/// The message reported for one outdated dependency: its name, the verb and
/// label of its lag, the version jump, and its package manager.
pub open spec fn spec_issue_message(
    name: Seq<char>,
    t: VersionType,
    current: Seq<char>,
    latest: Seq<char>,
    pm: Seq<char>,
) -> Seq<char> {
    name + " "@ + spec_version_action(t) + " ("@ + spec_version_label(t) + ") ("@ + current
        + " -> "@ + latest + ") via "@ + pm
}

/// Checks the dependency manifests of a project. The version lookups
/// themselves are the caller's business; this holds the scan settings.
#[derive(Debug)]
pub struct DependencyChecker {
    pub timeout_seconds: u64,
}

impl DependencyChecker {
    /// A checker with the stock timeout.
    pub fn new() -> (r: DependencyChecker)
        ensures
            r.timeout_seconds == 30,
    {
        DependencyChecker { timeout_seconds: 30 }
    }
}

impl Default for DependencyChecker {
    /// The stock checker.
    fn default() -> (r: DependencyChecker)
        ensures
            r.timeout_seconds == 30,
    {
        DependencyChecker::new()
    }
}

/// Turns what the dependency checker found into reported issues.
#[derive(Debug)]
pub struct DependencyVersionChecker {
    pub checker: DependencyChecker,
}

impl DependencyVersionChecker {
    /// A version checker over the stock dependency checker.
    pub fn new() -> (r: DependencyVersionChecker)
        ensures
            r.checker.timeout_seconds == 30,
    {
        DependencyVersionChecker { checker: DependencyChecker::new() }
    }

    /// The message reported for one outdated dependency.
    pub fn format_issue_message(&self, dep: &OutdatedDependency) -> (r: String)
        ensures
            r@ == spec_issue_message(
                dep.name@,
                dep.version_type,
                dep.current_version@,
                dep.latest_version@,
                dep.package_manager@,
            ),
    {
        let action: &str = match dep.version_type {
            VersionType::Major => "is significantly outdated",
            VersionType::Minor => "has a minor update available",
            VersionType::Patch => "has a patch update available",
        };
        let label: &str = match dep.version_type {
            VersionType::Major => "MAJOR",
            VersionType::Minor => "minor",
            VersionType::Patch => "patch",
        };
        let mut m = str_to_string(dep.name.as_str());
        append_str(&mut m, " ");
        append_str(&mut m, action);
        append_str(&mut m, " (");
        append_str(&mut m, label);
        append_str(&mut m, ") (");
        append_str(&mut m, dep.current_version.as_str());
        append_str(&mut m, " -> ");
        append_str(&mut m, dep.latest_version.as_str());
        append_str(&mut m, ") via ");
        append_str(&mut m, dep.package_manager.as_str());
        m
    }

    /// One reported issue per outdated dependency, in order: the severity of
    /// its lag and the formatted message, the rest of the record carried over.
    pub fn issues_from_outdated(&self, deps: Vec<OutdatedDependency>) -> (r: Vec<
        DependencyIssue,
    >)
        ensures
            r@.len() == deps@.len(),
            forall|i: int|
                0 <= i < deps@.len() ==> {
                    let d = #[trigger] deps@[i];
                    let issue = r@[i];
                    &&& issue.name@ == d.name@
                    &&& issue.current_version@ == d.current_version@
                    &&& issue.latest_version@ == d.latest_version@
                    &&& issue.version_type == d.version_type
                    &&& issue.package_manager@ == d.package_manager@
                    &&& issue.file_path@ == d.file_path@
                    &&& issue.severity == spec_severity_of(d.version_type)
                    &&& issue.message@ == spec_issue_message(
                        d.name@,
                        d.version_type,
                        d.current_version@,
                        d.latest_version@,
                        d.package_manager@,
                    )
                },
    {
        let ghost dv = deps@;
        let mut remaining = deps;
        let mut out: Vec<DependencyIssue> = Vec::new();
        while remaining.len() > 0
            invariant
                out@.len() + remaining@.len() == dv.len(),
                forall|i: int| 0 <= i < remaining@.len() ==> #[trigger] remaining@[i]
                    == dv[out@.len() + i],
                forall|i: int|
                    0 <= i < out@.len() ==> {
                        let d = #[trigger] dv[i];
                        let issue = out@[i];
                        &&& issue.name@ == d.name@
                        &&& issue.current_version@ == d.current_version@
                        &&& issue.latest_version@ == d.latest_version@
                        &&& issue.version_type == d.version_type
                        &&& issue.package_manager@ == d.package_manager@
                        &&& issue.file_path@ == d.file_path@
                        &&& issue.severity == spec_severity_of(d.version_type)
                        &&& issue.message@ == spec_issue_message(
                            d.name@,
                            d.version_type,
                            d.current_version@,
                            d.latest_version@,
                            d.package_manager@,
                        )
                    },
            decreases remaining.len(),
        {
            let ghost done = out@.len() as int;
            let ghost old_rem = remaining@;
            let dep = remaining.remove(0);
            proof {
                assert(old_rem[0] == dv[done]);
                assert(dep == old_rem[0]);
                assert(remaining@ =~= old_rem.skip(1));
                assert(forall|i: int| 0 <= i < remaining@.len() ==> #[trigger] remaining@[i]
                    == old_rem[i + 1]);
            }
            let severity = match dep.version_type {
                VersionType::Major => Severity::Error,
                VersionType::Minor => Severity::Warning,
                VersionType::Patch => Severity::Info,
            };
            let message = self.format_issue_message(&dep);
            let issue = DependencyIssue {
                name: dep.name,
                current_version: dep.current_version,
                latest_version: dep.latest_version,
                version_type: dep.version_type,
                package_manager: dep.package_manager,
                file_path: dep.file_path,
                severity,
                message,
            };
            out.push(issue);
        }
        out
    }
}

impl Default for DependencyVersionChecker {
    /// The stock version checker.
    fn default() -> (r: DependencyVersionChecker)
        ensures
            r.checker.timeout_seconds == 30,
    {
        DependencyVersionChecker::new()
    }
}

} // verus!

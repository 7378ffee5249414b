//! Dependency reporting: severity per version lag and the issue message.

use project_lint::dependencies::{
    DependencyChecker, DependencyVersionChecker, OutdatedDependency, Severity, VersionType,
};

fn outdated(kind: VersionType) -> OutdatedDependency {
    OutdatedDependency {
        name: "leftpad".to_string(),
        current_version: "1.2.3".to_string(),
        latest_version: "2.0.0".to_string(),
        version_type: kind,
        package_manager: "npm".to_string(),
        file_path: "package.json".to_string(),
    }
}

#[test]
fn test_checker_defaults() {
    assert_eq!(DependencyChecker::new().timeout_seconds, 30);
    assert_eq!(DependencyChecker::default().timeout_seconds, 30);
    assert_eq!(DependencyVersionChecker::new().checker.timeout_seconds, 30);
}

#[test]
fn test_format_issue_message() {
    let checker = DependencyVersionChecker::new();
    let message = checker.format_issue_message(&outdated(VersionType::Major));
    assert_eq!(
        message,
        "leftpad is significantly outdated (MAJOR) (1.2.3 -> 2.0.0) via npm"
    );
    let minor = checker.format_issue_message(&outdated(VersionType::Minor));
    assert_eq!(
        minor,
        "leftpad has a minor update available (minor) (1.2.3 -> 2.0.0) via npm"
    );
}

#[test]
fn test_issues_from_outdated() {
    let checker = DependencyVersionChecker::new();
    let issues = checker.issues_from_outdated(vec![
        outdated(VersionType::Major),
        outdated(VersionType::Minor),
        outdated(VersionType::Patch),
    ]);
    assert_eq!(issues.len(), 3);
    assert_eq!(issues[0].severity, Severity::Error);
    assert_eq!(issues[1].severity, Severity::Warning);
    assert_eq!(issues[2].severity, Severity::Info);
    assert!(issues[2].message.contains("patch update"));
}

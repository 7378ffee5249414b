//! pnpm enforcement: lockfile findings from directory markers, and scripts
//! that invoke other package managers.

use project_lint::pnpm_lockfile::{LockfileMarkers, PnpmLockfileRuleSet};

#[test]
fn test_lockfile_markers_npm() {
    let markers = LockfileMarkers {
        has_npm_lock: true,
        has_bun_lock: false,
        has_bun_lockb: false,
        has_yarn_lock: false,
        has_pnpm_lock: false,
    };
    let validation = PnpmLockfileRuleSet::lockfile_validation_from_markers(&markers);
    assert!(!validation.has_pnpm_lock);
    assert_eq!(validation.violations.len(), 1);
    assert_eq!(validation.violations[0].package_manager, "npm");
    assert_eq!(validation.violations[0].severity, "error");
}

#[test]
fn test_lockfile_markers_bun() {
    let markers = LockfileMarkers {
        has_npm_lock: false,
        has_bun_lock: true,
        has_bun_lockb: false,
        has_yarn_lock: false,
        has_pnpm_lock: false,
    };
    let validation = PnpmLockfileRuleSet::lockfile_validation_from_markers(&markers);
    assert_eq!(validation.violations.len(), 1);
    assert_eq!(validation.violations[0].package_manager, "bun");
}

#[test]
fn test_lockfile_markers_pnpm_only() {
    let markers = LockfileMarkers {
        has_npm_lock: false,
        has_bun_lock: false,
        has_bun_lockb: false,
        has_yarn_lock: false,
        has_pnpm_lock: true,
    };
    let validation = PnpmLockfileRuleSet::lockfile_validation_from_markers(&markers);
    assert!(validation.has_pnpm_lock);
    assert!(validation.violations.is_empty());
}

#[test]
fn test_lockfile_markers_none_at_all() {
    let markers = LockfileMarkers {
        has_npm_lock: false,
        has_bun_lock: false,
        has_bun_lockb: false,
        has_yarn_lock: false,
        has_pnpm_lock: false,
    };
    let validation = PnpmLockfileRuleSet::lockfile_validation_from_markers(&markers);
    assert_eq!(validation.violations.len(), 1);
    assert_eq!(validation.violations[0].package_manager, "pnpm");
    assert_eq!(validation.violations[0].severity, "warn");
}

#[test]
fn test_detect_npm_in_scripts() {
    let content = "{\n  \"scripts\": {\n    \"build\": \"npm run tsc\",\n    \"test\": \"npm test\"\n  }\n}";

    let result = PnpmLockfileRuleSet::check_scripts_for_package_managers(content);
    assert!(result.is_ok());

    let violations = result.unwrap();
    assert_eq!(violations.len(), 2);
}

#[test]
fn test_no_violations() {
    let content = "{\n  \"scripts\": {\n    \"build\": \"tsc\",\n    \"test\": \"vitest\"\n  }\n}";

    let result = PnpmLockfileRuleSet::check_scripts_for_package_managers(content);
    assert!(result.is_ok());

    let violations = result.unwrap();
    assert!(violations.is_empty());
}

#[test]
fn test_script_violation_details() {
    let content = "fine line\n  \"x\": \"yarn install --frozen\"\n";
    let violations = PnpmLockfileRuleSet::check_scripts_for_package_managers(content).unwrap();
    assert_eq!(violations.len(), 1);
    assert_eq!(violations[0].line, 2);
    assert_eq!(violations[0].package_manager, "yarn");
    assert_eq!(
        violations[0].message,
        "yarn command detected: \"x\": \"yarn install --frozen\""
    );
}

#[test]
fn test_word_boundary_respected() {
    // A word containing npm is not an npm invocation.
    let content = "\"build\": \"pnpm run tsc\"\n";
    let violations = PnpmLockfileRuleSet::check_scripts_for_package_managers(content).unwrap();
    assert!(violations.is_empty());
}

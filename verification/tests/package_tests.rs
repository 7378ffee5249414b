//! Monorepo package placement: the expected path layout and the platform
//! boundary between web and node packages.

use project_lint::package_organization::PackageOrganizationRuleSet;

#[test]
fn test_valid_package_path() {
    let path = "packages/features/web/auth/auth-ui/typescript";
    let result = PackageOrganizationRuleSet::validate_package_path(path);
    assert!(result.is_ok());

    let validation = result.unwrap();
    assert_eq!(validation.category, "features");
    assert_eq!(validation.platform, "web");
    assert_eq!(validation.domain, "auth");
    assert_eq!(validation.package_name, "auth-ui");
    assert_eq!(validation.language, "typescript");
}

#[test]
fn test_invalid_category() {
    let path = "packages/invalid/web/auth/auth-ui/typescript";
    let result = PackageOrganizationRuleSet::validate_package_path(path);
    assert!(result.is_err());
}

#[test]
fn test_invalid_platform() {
    let path = "packages/features/invalid/auth/auth-ui/typescript";
    let result = PackageOrganizationRuleSet::validate_package_path(path);
    assert!(result.is_err());
}

#[test]
fn test_invalid_language() {
    let path = "packages/features/web/auth/auth-ui/invalid";
    let result = PackageOrganizationRuleSet::validate_package_path(path);
    assert!(result.is_err());
}

#[test]
fn test_platform_boundary_violation() {
    let package_path = "packages/features/web/auth/auth-ui/typescript";
    let result = PackageOrganizationRuleSet::check_platform_boundaries(
        package_path,
        "packages/features/node/auth/core/typescript",
    );
    assert!(result.is_ok());
    assert!(!result.unwrap());
}

#[test]
fn test_platform_boundary_valid() {
    let package_path = "packages/features/web/auth/auth-ui/typescript";
    let result = PackageOrganizationRuleSet::check_platform_boundaries(
        package_path,
        "packages/features/shared/auth/types/typescript",
    );
    assert!(result.is_ok());
    assert!(result.unwrap());
}

#[test]
fn test_not_a_packages_path() {
    let result = PackageOrganizationRuleSet::validate_package_path("src/lib/util.rs");
    let message = result.err().expect("a path without a packages component fails");
    assert_eq!(message, "Not a packages directory");
}

#[test]
fn test_short_package_path() {
    let result = PackageOrganizationRuleSet::validate_package_path("packages/core/web");
    let message = result.err().expect("a short package path fails");
    assert!(message.contains("Invalid package structure"));
    assert!(message.contains("core/web"));
}

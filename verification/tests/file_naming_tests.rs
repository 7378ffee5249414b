//! File-naming conventions: the plain predicates, the edit distance, and the
//! misspelling scanner.

use project_lint::file_naming::{
    levenshtein_distance, FileNamingRule, FileNamingScanner,
};

#[test]
fn test_file_naming_validation() {
    let rule = FileNamingRule::new();

    assert!(rule.is_valid_name("my-component.ts"));
    assert!(rule.is_valid_name("utils.ts"));
    assert!(rule.is_valid_name("README.md"));

    assert!(!rule.is_valid_name("MyComponent.ts"));
    assert!(!rule.is_valid_name("temp file.txt"));
    assert!(!rule.is_valid_name("file.js~"));
}

#[test]
fn test_file_extension_validation() {
    let rule = FileNamingRule::new();

    assert!(rule.has_valid_extension("component.ts"));
    assert!(rule.has_valid_extension("script.js"));
    assert!(rule.has_valid_extension("module.py"));

    assert!(!rule.has_valid_extension("file.tmp"));
    assert!(!rule.has_valid_extension("backup.bak"));
}

#[test]
fn test_temporary_file_detection() {
    let rule = FileNamingRule::new();

    assert!(rule.is_temporary_file("test.tmp"));
    assert!(rule.is_temporary_file("backup.bak"));
    assert!(rule.is_temporary_file("old~"));

    assert!(!rule.is_temporary_file("component.ts"));
    assert!(!rule.is_temporary_file("README.md"));
}

#[test]
fn test_case_sensitivity_rules() {
    let rule = FileNamingRule::new();

    assert!(rule.is_preferred_case("my-component.ts"));
    assert!(rule.is_preferred_case("user-service.js"));

    assert!(rule.is_acceptable_case("myComponent.ts", "typescript"));
    assert!(!rule.is_acceptable_case("MyComponent.ts", "typescript"));
}

#[test]
fn test_standard_file_names() {
    let rule = FileNamingRule::new();

    assert!(rule.is_standard_file("README.md"));
    assert!(rule.is_standard_file("LICENSE"));
    assert!(rule.is_standard_file("package.json"));
    assert!(rule.is_standard_file("Cargo.toml"));

    assert!(!rule.is_standard_file("readme.txt"));
    assert!(!rule.is_standard_file("Package.json"));
}

#[test]
fn test_levenshtein_distance() {
    assert_eq!(levenshtein_distance("kitten", "sitting"), 3);
    assert_eq!(levenshtein_distance("book", "back"), 2);
    assert_eq!(levenshtein_distance("hello", "hello"), 0);
    assert_eq!(levenshtein_distance(".devcontainers", ".devcontainer"), 1);
}

#[test]
fn test_scan_exact_mismatch() {
    let scanner = FileNamingScanner::new();
    let entries = vec![(".devcontainers".to_string(), true)];
    let issues = scanner.scan_names(&entries);

    assert_eq!(issues.len(), 1);
    assert_eq!(issues[0].suggested_name, ".devcontainer");
    assert!(issues[0].is_directory);
}

#[test]
fn test_scan_fuzzy_match() {
    let scanner = FileNamingScanner::new();
    let entries = vec![("package.jsn".to_string(), false)];
    let issues = scanner.scan_names(&entries);

    // The known misspelling wins over any fuzzy match.
    assert!(issues.iter().any(|i| i.suggested_name == "package.json"));
}

#[test]
fn test_scan_clean_names() {
    let scanner = FileNamingScanner::new();
    let entries = vec![
        ("README.md".to_string(), false),
        ("src".to_string(), true),
        ("Cargo.toml".to_string(), false),
    ];
    let issues = scanner.scan_names(&entries);
    assert!(issues.is_empty());
}

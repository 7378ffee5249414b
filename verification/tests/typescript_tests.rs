//! The TypeScript rule tables and the compiled scanner.

use project_lint::typescript::{TypeScriptRuleSet, TypeScriptScanner};

#[test]
fn test_typescript_rules_created() {
    let ext_rules = TypeScriptRuleSet::file_extension_rules();
    assert!(!ext_rules.is_empty());

    let alias_rules = TypeScriptRuleSet::path_alias_rules();
    assert!(!alias_rules.is_empty());

    let module_rules = TypeScriptRuleSet::module_system_rules();
    assert!(!module_rules.is_empty());

    let style_rules = TypeScriptRuleSet::code_style_rules();
    assert!(!style_rules.is_empty());

    let pkg_rules = TypeScriptRuleSet::package_structure_rules();
    assert!(!pkg_rules.is_empty());

    let eslint_rules = TypeScriptRuleSet::eslint_config_rules();
    assert!(!eslint_rules.is_empty());

    let test_rules = TypeScriptRuleSet::test_file_rules();
    assert!(!test_rules.is_empty());
}

#[test]
fn test_scanner_creation() {
    let scanner = TypeScriptScanner::new();
    assert!(scanner.is_ok());
}

#[test]
fn test_scanner_flags_require_in_script() {
    let scanner = TypeScriptScanner::new().unwrap();
    let issues = scanner.scan_content("module.mts", "const fs = require('fs');\n");
    assert!(issues.iter().any(|i| i.pattern_name == "require_in_esm"));
    assert!(issues.iter().any(|i| i.pattern_name == "single_quotes"));
}

#[test]
fn test_scanner_quiet_on_markdown() {
    let scanner = TypeScriptScanner::new().unwrap();
    let issues = scanner.scan_content("notes.md", "const fs = require('fs');\n");
    assert!(issues.is_empty());
}

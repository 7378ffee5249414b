//! The security rule tables and the compiled scanner.

use project_lint::security::{SecurityRuleSet, SecurityScanner};

#[test]
fn test_security_rules_created() {
    let cred_rules = SecurityRuleSet::hardcoded_credentials_rules();
    assert!(!cred_rules.is_empty());

    let c_rules = SecurityRuleSet::insecure_c_functions_rules();
    assert!(!c_rules.is_empty());

    let crypto_rules = SecurityRuleSet::insecure_crypto_rules();
    assert!(!crypto_rules.is_empty());

    let cert_rules = SecurityRuleSet::certificate_rules();
    assert!(!cert_rules.is_empty());
}

#[test]
fn test_security_scanner_creation() {
    let scanner = SecurityScanner::new();
    assert!(scanner.is_ok());
}

#[test]
fn test_scanner_flags_weak_hash() {
    let scanner = SecurityScanner::new().unwrap();
    let issues = scanner.scan_content("hash.py", "digest = md5(data)\n");
    assert!(issues.iter().any(|i| i.pattern_name == "md5_usage"));
}

#[test]
fn test_scanner_flags_unsafe_call_in_c_only() {
    let scanner = SecurityScanner::new().unwrap();
    let c_issues = scanner.scan_content("main.c", "strcpy(dst, src);\n");
    assert!(c_issues.iter().any(|i| i.pattern_name == "unsafe_strcpy"));
    let rs_issues = scanner.scan_content("main.rs", "strcpy(dst, src);\n");
    assert!(rs_issues.iter().all(|i| i.pattern_name != "unsafe_strcpy"));
}

//! Pattern detection: rule construction, scanning through the real regex
//! engine, and issue rendering.

use project_lint::detection::{
    FunctionCallDetector, FunctionCallRule, PatternDetector, PatternRule,
};

#[test]
fn test_pattern_detection() {
    let rules = vec![PatternRule {
        name: "test_pattern".to_string(),
        pattern: "password\\s*=\\s*['\"].*['\"]".to_string(),
        severity: "critical".to_string(),
        message_template: "Found hardcoded password: {matched}".to_string(),
        fix_template: Some("password = os.getenv('PASSWORD')".to_string()),
        case_sensitive: false,
    }];

    let detector = PatternDetector::new(rules).unwrap();
    assert!(detector.pattern_count() > 0);
}

#[test]
fn test_function_call_detection() {
    let rules = vec![FunctionCallRule {
        name: "unsafe_strcpy".to_string(),
        function_names: vec!["strcpy".to_string()],
        severity: "high".to_string(),
        message_template: "Unsafe function '{function}' at {file}:{line}".to_string(),
        fix_template: Some("snprintf".to_string()),
    }];

    let detector = FunctionCallDetector::new(rules);
    assert_eq!(detector.rule_count(), 1);
}

#[test]
fn test_pattern_scan_finds_match() {
    let rules = vec![PatternRule {
        name: "test_pattern".to_string(),
        pattern: "password\\s*=\\s*['\"][^'\"]*['\"]".to_string(),
        severity: "critical".to_string(),
        message_template: "Found hardcoded password: {matched} at {file}:{line}".to_string(),
        fix_template: None,
        case_sensitive: false,
    }];
    let detector = PatternDetector::new(rules).unwrap();
    let content = "let ok = 1;\npassword = \"hunter2\"\n";
    let issues = detector.scan_content("conf.py", content);
    assert_eq!(issues.len(), 1);
    assert_eq!(issues[0].line, 2);
    assert_eq!(issues[0].matched_text, "password = \"hunter2\"");
    assert_eq!(
        issues[0].message,
        "Found hardcoded password: password = \"hunter2\" at conf.py:2"
    );
}

#[test]
fn test_function_call_scan_finds_call() {
    let rules = vec![FunctionCallRule {
        name: "unsafe_strcpy".to_string(),
        function_names: vec!["strcpy".to_string()],
        severity: "high".to_string(),
        message_template: "Unsafe function '{function}' at {file}:{line}".to_string(),
        fix_template: None,
    }];
    let detector = FunctionCallDetector::new(rules);
    let issues = detector.scan_content("main.c", "int main() { strcpy(dst, src); }\n");
    assert_eq!(issues.len(), 1);
    assert_eq!(issues[0].message, "Unsafe function 'strcpy' at main.c:1");
    // A name that only contains the function name does not count as a call.
    let quiet = detector.scan_content("main.c", "int main() { my_strcpy_helper(dst); }\n");
    assert!(quiet.is_empty());
}

#[test]
fn test_invalid_pattern_is_rejected() {
    let rules = vec![PatternRule {
        name: "broken".to_string(),
        pattern: "([unclosed".to_string(),
        severity: "low".to_string(),
        message_template: "x".to_string(),
        fix_template: None,
        case_sensitive: true,
    }];
    let result = PatternDetector::new(rules);
    let message = result.err().expect("an invalid pattern fails compilation");
    assert!(message.contains("invalid pattern"));
}

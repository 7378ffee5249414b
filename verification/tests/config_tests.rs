//! The configuration model: defaults, rule shapes, trigger names and
//! severity parsing.

use project_lint::config::{
    is_valid_trigger, parse_severity, Config, CustomRule, ModularRule, RuleSeverity,
};

#[test]
fn test_default_config() {
    let config = Config::default();

    assert!(config.git.warn_wrong_branch);
    assert!(config.git.allowed_branches.contains(&"main".to_string()));
    assert!(config.git.allowed_branches.contains(&"master".to_string()));
    assert!(config.git.forbidden_branches.contains(&"develop".to_string()));

    assert!(config.files.auto_move);
    assert_eq!(config.files.mapping_for("*.sh"), Some("bin/".to_string()));

    assert!(config.directories.warn_scripts_location);
    assert_eq!(config.directories.scripts_directory, "bin");

    assert!(config.rules.enabled_checks.contains(&"git_branch".to_string()));
    assert!(config.rules.enabled_checks.contains(&"file_location".to_string()));
    assert!(config
        .rules
        .enabled_checks
        .contains(&"directory_structure".to_string()));
}

#[test]
fn test_custom_rules() {
    let mut config = Config::default();

    config.rules.custom_rules.push(CustomRule {
        name: "test_rule".to_string(),
        pattern: "*.test".to_string(),
        message: "Test rule".to_string(),
        severity: RuleSeverity::Warning,
        ..CustomRule::default()
    });

    assert_eq!(config.rules.custom_rules.len(), 1);
    assert_eq!(config.rules.custom_rules[0].name, "test_rule");
}

#[test]
fn test_custom_rule_patterns() {
    let rule = CustomRule {
        name: "pattern-test".to_string(),
        pattern: "*.rs".to_string(),
        message: "Test pattern".to_string(),
        severity: RuleSeverity::Info,
        check_content: true,
        content_pattern: Some("unsafe".to_string()),
        condition: Some("contains".to_string()),
        required: false,
        triggers: vec!["post_read_code".to_string()],
        ..CustomRule::default()
    };

    assert_eq!(rule.pattern, "*.rs");
    assert!(rule.check_content);
    assert_eq!(rule.content_pattern, Some("unsafe".to_string()));
    assert_eq!(rule.condition, Some("contains".to_string()));
}

#[test]
fn test_rule_triggers() {
    let valid_triggers = vec![
        "pre_tool_use",
        "post_tool_use",
        "pre_read_code",
        "post_read_code",
        "pre_write_code",
        "post_write_code",
        "pre_run_command",
        "post_run_command",
        "pre_user_prompt",
        "post_model_response",
    ];

    for trigger in valid_triggers {
        assert!(is_valid_trigger(trigger));
    }

    assert!(!is_valid_trigger("invalid_trigger"));
}

#[test]
fn test_rule_severity_conversion() {
    let severities = vec![
        ("error", RuleSeverity::Error),
        ("warning", RuleSeverity::Warning),
        ("info", RuleSeverity::Info),
    ];

    for (name, expected) in severities {
        let parsed = parse_severity(name).expect("a known severity name parses");
        assert_eq!(parsed, expected);
    }

    assert!(parse_severity("invalid").is_err());
}

#[test]
fn test_modular_rules() {
    let mut config = Config::default();

    let modular_rule = ModularRule {
        name: "test-modular".to_string(),
        description: "Test modular rule".to_string(),
        enabled: true,
        severity: RuleSeverity::Warning,
        triggers: vec!["pre_write_code".to_string()],
        ..ModularRule::default()
    };

    config.modular_rules.push(modular_rule);

    assert_eq!(config.modular_rules.len(), 1);
    assert!(config.modular_rules[0].enabled);
    assert_eq!(config.modular_rules[0].name, "test-modular");
}

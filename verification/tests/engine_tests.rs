//! Rule-engine behaviour: trigger matching, rule polarity, the pnpm
//! enforcement path, and issue aggregation.

use project_lint::config::{Config, CustomRule, ModularRule, RuleSeverity};
use project_lint::engine::{DirProbe, RuleEngine};
use project_lint::events::{Decision, EventContext, EventType, ProjectLintEvent};
use project_lint::json::JsonValue;

fn plain_event(event_type: EventType) -> ProjectLintEvent {
    ProjectLintEvent {
        event_type,
        session_id: None,
        timestamp: None,
        cwd: None,
        context: EventContext::default(),
    }
}

fn rule(name: &str, pattern: &str, severity: RuleSeverity, triggers: Vec<&str>) -> CustomRule {
    CustomRule {
        name: String::from(name),
        pattern: String::from(pattern),
        message: String::from("rule fired"),
        severity,
        triggers: triggers.into_iter().map(String::from).collect(),
        ..CustomRule::default()
    }
}

#[test]
fn test_pnpm_enforcement_rule() {
    let mut config = Config::default();
    config.rules.custom_rules.push(CustomRule {
        name: "pnpm-workspace-enforcer".to_string(),
        pattern: "*".to_string(),
        message: "Use pnpm instead".to_string(),
        severity: RuleSeverity::Warning,
        check_content: false,
        content_pattern: None,
        exception_pattern: None,
        condition: None,
        required: false,
        required_if_path_exists: None,
        triggers: vec!["pre_tool_use".to_string()],
    });

    let mut event = plain_event(EventType::PreToolUse);
    event.session_id = Some("test-session".to_string());
    event.timestamp = Some("2025-01-28T20:00:00Z".to_string());
    event.cwd = Some("/tmp/test-project".to_string());
    event.context.tool_name = Some("bash".to_string());
    event.context.tool_input = Some(JsonValue::Obj(vec![(
        "input".to_string(),
        JsonValue::Str("npm install express".to_string()),
    )]));
    event.context.ide_source = "windsurf".to_string();
    event.context.original_payload = Some(JsonValue::Obj(vec![(
        "agent_action_name".to_string(),
        JsonValue::Str("pre_mcp_tool_use".to_string()),
    )]));

    // The probed directory holds no pnpm markers, so the rule stays quiet.
    let engine = RuleEngine::new(&config);
    let result = engine.evaluate_event(&event, &DirProbe::empty());
    assert!(result.message.is_none());
}

#[test]
fn test_command_extraction() {
    let config = Config::default();
    let engine = RuleEngine::new(&config);

    let windsurf_input = JsonValue::Obj(vec![(
        "input".to_string(),
        JsonValue::Str("npm run dev".to_string()),
    )]);
    assert_eq!(
        engine.extract_command_from_input(&windsurf_input),
        Some("npm run dev".to_string())
    );

    let assistant_input = JsonValue::Obj(vec![(
        "tool_input".to_string(),
        JsonValue::Str("npm test".to_string()),
    )]);
    assert_eq!(
        engine.extract_command_from_input(&assistant_input),
        Some("npm test".to_string())
    );

    let generic_input = JsonValue::Obj(vec![(
        "command".to_string(),
        JsonValue::Str("npm build".to_string()),
    )]);
    assert_eq!(
        engine.extract_command_from_input(&generic_input),
        Some("npm build".to_string())
    );
}

#[test]
fn test_empty_triggers_never_fire() {
    let mut config = Config::default();
    config.rules.custom_rules.push(rule("no-triggers", "*", RuleSeverity::Error, vec![]));
    let engine = RuleEngine::new(&config);
    let kinds = vec![
        EventType::SessionStart,
        EventType::PreToolUse,
        EventType::PreWriteCode,
        EventType::Unknown("anything".to_string()),
    ];
    for kind in kinds {
        let result = engine.evaluate_event(&plain_event(kind), &DirProbe::empty());
        assert!(matches!(result.decision, Decision::Allow));
        assert!(result.message.is_none());
    }
}

#[test]
fn test_unknown_event_trigger_matching() {
    let mut config = Config::default();
    config
        .rules
        .custom_rules
        .push(rule("custom-hook", "*", RuleSeverity::Warning, vec!["my_custom_hook"]));
    let engine = RuleEngine::new(&config);

    // A rule whose trigger list holds exactly the reported name matches.
    let event = plain_event(EventType::Unknown("my_custom_hook".to_string()));
    let result = engine.evaluate_event(&event, &DirProbe::empty());
    assert!(matches!(result.decision, Decision::Warn));

    // A canonical event-kind trigger does not match that unknown event.
    let mut config2 = Config::default();
    config2
        .rules
        .custom_rules
        .push(rule("canonical", "*", RuleSeverity::Warning, vec!["pre_tool_use"]));
    let engine2 = RuleEngine::new(&config2);
    let event2 = plain_event(EventType::Unknown("my_custom_hook".to_string()));
    let result2 = engine2.evaluate_event(&event2, &DirProbe::empty());
    assert!(matches!(result2.decision, Decision::Allow));
}

#[test]
fn test_canonical_name_round_trip() {
    // The canonical serialization is the snake_case name, and a rule
    // triggered by that name fires on the event.
    assert_eq!(EventType::PreToolUse.canonical_name(), "pre_tool_use");
    let mut config = Config::default();
    config
        .rules
        .custom_rules
        .push(rule("on-tool-use", "*", RuleSeverity::Warning, vec!["pre_tool_use"]));
    let engine = RuleEngine::new(&config);
    let result = engine.evaluate_event(&plain_event(EventType::PreToolUse), &DirProbe::empty());
    assert!(matches!(result.decision, Decision::Warn));
    assert!(result.message.is_some());
}

#[test]
fn test_deny_list_pattern_fires() {
    let mut config = Config::default();
    config
        .rules
        .custom_rules
        .push(rule("no-env-files", "*.env", RuleSeverity::Warning, vec!["all"]));
    let engine = RuleEngine::new(&config);
    let mut event = plain_event(EventType::PreWriteCode);
    event.context.file_path = Some("config/secrets.env".to_string());
    let result = engine.evaluate_event(&event, &DirProbe::empty());
    assert!(matches!(result.decision, Decision::Warn));
    let message = result.message.expect("an issue should be raised");
    assert!(message.contains("no-env-files"));
}

#[test]
fn test_required_flips_polarity() {
    let mut config = Config::default();
    let mut required_rule = rule("env-required", "*.env", RuleSeverity::Warning, vec!["all"]);
    required_rule.required = true;
    config.rules.custom_rules.push(required_rule);
    let engine = RuleEngine::new(&config);
    let mut event = plain_event(EventType::PreWriteCode);
    event.context.file_path = Some("config/secrets.env".to_string());
    let result = engine.evaluate_event(&event, &DirProbe::empty());
    assert!(matches!(result.decision, Decision::Allow));
    assert!(result.message.is_none());
}

#[test]
fn test_must_contain_condition() {
    let mut config = Config::default();
    let mut content_rule = rule("license-required", "*", RuleSeverity::Warning, vec!["all"]);
    content_rule.check_content = true;
    content_rule.content_pattern = Some("LICENSE".to_string());
    content_rule.condition = Some("must_contain".to_string());
    config.rules.custom_rules.push(content_rule);
    let engine = RuleEngine::new(&config);

    // Content without the pattern raises the issue.
    let mut event = plain_event(EventType::PreWriteCode);
    event.context.file_content = Some("no mention here".to_string());
    let result = engine.evaluate_event(&event, &DirProbe::empty());
    assert!(matches!(result.decision, Decision::Warn));

    // Content carrying the pattern passes.
    let mut event2 = plain_event(EventType::PreWriteCode);
    event2.context.file_content = Some("see the LICENSE file".to_string());
    let result2 = engine.evaluate_event(&event2, &DirProbe::empty());
    assert!(matches!(result2.decision, Decision::Allow));
}

#[test]
fn test_pnpm_rule_rewrites_command() {
    let mut config = Config::default();
    config.rules.custom_rules.push(rule(
        "pnpm-workspace-enforcer",
        "*",
        RuleSeverity::Warning,
        vec!["pre_tool_use"],
    ));
    let engine = RuleEngine::new(&config);

    let mut event = plain_event(EventType::PreToolUse);
    event.cwd = Some("/tmp/ws".to_string());
    event.context.tool_input = Some(JsonValue::Obj(vec![(
        "input".to_string(),
        JsonValue::Str("npm install express".to_string()),
    )]));

    let probe = DirProbe {
        package_json: Some("{\"packageManager\": \"pnpm@8.0.0\"}".to_string()),
        has_workspace_yaml: false,
        has_workspace_yml: false,
        has_pnpm_lock: false,
    };
    let result = engine.evaluate_event(&event, &probe);
    assert!(matches!(result.decision, Decision::Warn));
    let modified = result.modified_input.expect("the command should be rewritten");
    assert_eq!(
        modified.get_str("input"),
        Some("pnpm install express".to_string())
    );

    // Without pnpm markers in the directory, the same event passes untouched.
    let mut event2 = plain_event(EventType::PreToolUse);
    event2.cwd = Some("/tmp/ws".to_string());
    event2.context.tool_input = Some(JsonValue::Obj(vec![(
        "input".to_string(),
        JsonValue::Str("npm install express".to_string()),
    )]));
    let result2 = engine.evaluate_event(&event2, &DirProbe::empty());
    assert!(matches!(result2.decision, Decision::Allow));
    assert!(result2.message.is_none());
    assert!(result2.modified_input.is_none());
}

#[test]
fn test_is_pnpm_workspace_markers() {
    let config = Config::default();
    let engine = RuleEngine::new(&config);

    // packageManager naming pnpm decides it alone.
    let by_manager = DirProbe {
        package_json: Some("{\"packageManager\": \"pnpm@8.0.0\"}".to_string()),
        has_workspace_yaml: false,
        has_workspace_yml: false,
        has_pnpm_lock: false,
    };
    assert!(engine.is_pnpm_workspace(&by_manager));

    // A workspace file decides it even without the field.
    let by_file = DirProbe {
        package_json: Some("{}".to_string()),
        has_workspace_yaml: true,
        has_workspace_yml: false,
        has_pnpm_lock: false,
    };
    assert!(engine.is_pnpm_workspace(&by_file));

    // No package.json at all conservatively means no workspace.
    let no_manifest = DirProbe {
        package_json: None,
        has_workspace_yaml: true,
        has_workspace_yml: true,
        has_pnpm_lock: true,
    };
    assert!(!engine.is_pnpm_workspace(&no_manifest));

    // A manifest that is not JSON conservatively means no workspace.
    let broken = DirProbe {
        package_json: Some("not json at all {".to_string()),
        has_workspace_yaml: true,
        has_workspace_yml: false,
        has_pnpm_lock: false,
    };
    assert!(!engine.is_pnpm_workspace(&broken));
}

#[test]
fn test_aggregation_error_dominates() {
    let mut config = Config::default();
    config
        .rules
        .custom_rules
        .push(rule("first-warning", "*", RuleSeverity::Warning, vec!["all"]));
    config
        .rules
        .custom_rules
        .push(rule("second-error", "*", RuleSeverity::Error, vec!["all"]));
    let engine = RuleEngine::new(&config);
    let result = engine.evaluate_event(&plain_event(EventType::PreWriteCode), &DirProbe::empty());
    assert!(matches!(result.decision, Decision::Deny));
    let message = result.message.expect("both issues should be reported");
    let first = message.find("first-warning").expect("first rule in message");
    let second = message.find("second-error").expect("second rule in message");
    assert!(first < second, "issues must appear in declaration order");
}

#[test]
fn test_modular_rule_evaluation() {
    let mut config = Config::default();
    let nested = rule("nested-env", "*.env", RuleSeverity::Error, vec![]);
    config.modular_rules.push(ModularRule {
        name: "bundle".to_string(),
        enabled: true,
        triggers: vec!["pre_write_code".to_string()],
        rules: Some(vec![nested]),
        ..ModularRule::default()
    });
    let engine = RuleEngine::new(&config);

    let mut event = plain_event(EventType::PreWriteCode);
    event.context.file_path = Some("a.env".to_string());
    let result = engine.evaluate_event(&event, &DirProbe::empty());
    assert!(matches!(result.decision, Decision::Deny));

    // A disabled bundle contributes nothing.
    let mut config2 = Config::default();
    let nested2 = rule("nested-env", "*.env", RuleSeverity::Error, vec![]);
    config2.modular_rules.push(ModularRule {
        name: "bundle".to_string(),
        enabled: false,
        triggers: vec!["pre_write_code".to_string()],
        rules: Some(vec![nested2]),
        ..ModularRule::default()
    });
    let engine2 = RuleEngine::new(&config2);
    let mut event2 = plain_event(EventType::PreWriteCode);
    event2.context.file_path = Some("a.env".to_string());
    let result2 = engine2.evaluate_event(&event2, &DirProbe::empty());
    assert!(matches!(result2.decision, Decision::Allow));
}

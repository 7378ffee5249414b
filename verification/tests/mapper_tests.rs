//! The event mappers: raw payloads through the real JSON parser into
//! canonical events, and verdicts back into each source's response shape.

use project_lint::events::{Decision, EventType, HookResult};
use project_lint::json::JsonValue;
use project_lint::mappers::{AssistantMapper, KiroMapper, WindsurfMapper};

#[test]
fn test_windsurf_map_event() {
    let input = "{\"agent_action_name\": \"pre_run_command\", \"trajectory_id\": \"traj-9\", \"tool_info\": {\"command_line\": \"ls -la\", \"cwd\": \"/work\"}}";
    let event = WindsurfMapper.map_event(input).expect("valid payload maps");
    assert!(matches!(event.event_type, EventType::PreRunCommand));
    assert_eq!(event.session_id, Some("traj-9".to_string()));
    assert_eq!(event.cwd, Some("/work".to_string()));
    assert_eq!(event.context.command, Some("ls -la".to_string()));
    assert_eq!(event.context.ide_source, "windsurf");
    assert!(event.context.original_payload.is_some());
}

#[test]
fn test_windsurf_unknown_event() {
    let input = "{\"agent_action_name\": \"brand_new_hook\"}";
    let event = WindsurfMapper.map_event(input).expect("valid payload maps");
    match &event.event_type {
        EventType::Unknown(name) => assert_eq!(name, "brand_new_hook"),
        other => panic!("expected an unknown kind, got {:?}", other),
    }
}

#[test]
fn test_windsurf_write_event_edits() {
    let input = "{\"agent_action_name\": \"pre_write_code\", \"tool_info\": {\"file_path\": \"src/a.rs\", \"edits\": [{\"old_string\": \"x\", \"new_string\": \"y\"}, {\"new_string\": \"z\"}]}}";
    let event = WindsurfMapper.map_event(input).expect("valid payload maps");
    assert!(matches!(event.event_type, EventType::PreWriteCode));
    assert_eq!(event.context.file_path, Some("src/a.rs".to_string()));
    let edits = event.context.edits.expect("the edits come through");
    assert_eq!(edits.len(), 2);
    assert_eq!(edits[0].old_string, Some("x".to_string()));
    assert_eq!(edits[0].new_string, "y");
    assert_eq!(edits[1].old_string, None);
    assert_eq!(edits[1].new_string, "z");
}

#[test]
fn test_windsurf_malformed_payload() {
    assert!(WindsurfMapper.map_event("this is not json").is_err());
    assert!(AssistantMapper.map_event("{unbalanced").is_err());
    assert!(KiroMapper.map_event("").is_err());
}

#[test]
fn test_windsurf_format_response() {
    let deny = HookResult {
        decision: Decision::Deny,
        message: Some("stop".to_string()),
        modified_input: None,
    };
    assert_eq!(WindsurfMapper.format_response(deny), "{\"decision\":\"deny\"}");

    let warn = HookResult {
        decision: Decision::Warn,
        message: None,
        modified_input: Some(JsonValue::Obj(vec![(
            "input".to_string(),
            JsonValue::Str("pnpm i".to_string()),
        )])),
    };
    assert_eq!(
        WindsurfMapper.format_response(warn),
        "{\"decision\":\"warn\",\"modified_input\":{\"input\":\"pnpm i\"}}"
    );

    let allow = HookResult { decision: Decision::Allow, message: None, modified_input: None };
    assert_eq!(WindsurfMapper.format_response(allow), "{\"decision\":\"allow\"}");
}

#[test]
fn test_assistant_map_event() {
    let input = "{\"hook_event_name\": \"PreToolUse\", \"session_id\": \"s1\", \"cwd\": \"/repo\", \"tool_name\": \"Edit\", \"tool_input\": {\"file_path\": \"src/lib.rs\"}}";
    let event = AssistantMapper.map_event(input).expect("valid payload maps");
    assert!(matches!(event.event_type, EventType::PreToolUse));
    assert_eq!(event.session_id, Some("s1".to_string()));
    assert_eq!(event.cwd, Some("/repo".to_string()));
    assert_eq!(event.context.tool_name, Some("Edit".to_string()));
    assert_eq!(event.context.file_path, Some("src/lib.rs".to_string()));
}

#[test]
fn test_assistant_prompt_event() {
    let input = "{\"hook_event_name\": \"UserPromptSubmit\", \"prompt\": \"please review\"}";
    let event = AssistantMapper.map_event(input).expect("valid payload maps");
    assert!(matches!(event.event_type, EventType::PreUserPrompt));
    assert_eq!(event.context.user_prompt, Some("please review".to_string()));
}

#[test]
fn test_assistant_format_response() {
    let deny = HookResult {
        decision: Decision::Deny,
        message: Some("blocked".to_string()),
        modified_input: None,
    };
    assert_eq!(
        AssistantMapper.format_response(deny),
        "{\"continue\":false,\"stopReason\":\"blocked\"}"
    );

    let warn = HookResult {
        decision: Decision::Warn,
        message: Some("careful".to_string()),
        modified_input: None,
    };
    assert_eq!(
        AssistantMapper.format_response(warn),
        "{\"continue\":true,\"systemMessage\":\"careful\"}"
    );

    let ask = HookResult { decision: Decision::Ask, message: None, modified_input: None };
    assert_eq!(
        AssistantMapper.format_response(ask),
        "{\"continue\":true,\"hookSpecificOutput\":{\"permissionDecision\":\"ask\",\"permissionDecisionReason\":\"\"}}"
    );
}

#[test]
fn test_kiro_map_event() {
    let input = "{\"event\": \"file_save\", \"file\": \"notes.md\", \"session_id\": \"k7\"}";
    let event = KiroMapper.map_event(input).expect("valid payload maps");
    assert!(matches!(event.event_type, EventType::PostWriteCode));
    assert_eq!(event.context.file_path, Some("notes.md".to_string()));
    assert_eq!(event.session_id, Some("k7".to_string()));
    assert_eq!(event.context.ide_source, "kiro");
}

#[test]
fn test_kiro_type_fallback() {
    let input = "{\"type\": \"prompt.submit\", \"prompt\": \"hello\"}";
    let event = KiroMapper.map_event(input).expect("valid payload maps");
    assert!(matches!(event.event_type, EventType::PreUserPrompt));
    assert_eq!(event.context.user_prompt, Some("hello".to_string()));
}

#[test]
fn test_kiro_format_response() {
    let deny = HookResult {
        decision: Decision::Deny,
        message: Some("no".to_string()),
        modified_input: None,
    };
    assert_eq!(KiroMapper.format_response(deny), "");
}

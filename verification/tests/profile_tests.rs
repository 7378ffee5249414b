//! Profile activation: event-trigger matching, the probed file-system
//! mechanisms, and content triggers.

use project_lint::config::{
    ContentTrigger, MatchPosition, Profile, ProfileActivation, ProfileEnable, ProfileMetadata,
};
use project_lint::events::{EventContext, EventType, ProjectLintEvent};
use project_lint::profiles::{
    content_trigger_matches, get_active_profiles, is_profile_active, ProfileFsProbe,
};

fn profile(name: &str, triggers: Vec<&str>) -> Profile {
    Profile {
        metadata: ProfileMetadata {
            name: name.to_string(),
            version: "1.0.0".to_string(),
            scope: "project".to_string(),
            updated: "2025-01-01".to_string(),
            description: "a test profile".to_string(),
        },
        activation: ProfileActivation {
            triggers: triggers.into_iter().map(String::from).collect(),
            indicators: vec![],
            paths: vec![],
            globs: vec![],
            content: vec![],
            extensions: vec![],
            branches: vec![],
        },
        enable: ProfileEnable { domains: vec![], plugins: vec![] },
        web_specific: None,
        devops_specific: None,
        structure: None,
    }
}

fn plain_event(kind: EventType) -> ProjectLintEvent {
    ProjectLintEvent {
        event_type: kind,
        session_id: None,
        timestamp: None,
        cwd: None,
        context: EventContext::default(),
    }
}

#[test]
fn test_event_trigger_activates_profile() {
    let p = profile("web", vec!["pre_write_code"]);
    let event = plain_event(EventType::PreWriteCode);
    assert!(is_profile_active(&p, Some(&event), &ProfileFsProbe::none()));

    let other = plain_event(EventType::SessionStart);
    assert!(!is_profile_active(&p, Some(&other), &ProfileFsProbe::none()));
    assert!(!is_profile_active(&p, None, &ProfileFsProbe::none()));
}

#[test]
fn test_probe_activates_profile() {
    let p = profile("devops", vec![]);
    let by_indicator = ProfileFsProbe {
        any_indicator: true,
        any_path: false,
        any_glob: false,
        any_content: false,
    };
    assert!(is_profile_active(&p, None, &by_indicator));
    let by_content = ProfileFsProbe {
        any_indicator: false,
        any_path: false,
        any_glob: false,
        any_content: true,
    };
    assert!(is_profile_active(&p, None, &by_content));
    assert!(!is_profile_active(&p, None, &ProfileFsProbe::none()));
}

#[test]
fn test_get_active_profiles_preserves_order() {
    let profiles = vec![
        profile("first", vec!["pre_tool_use"]),
        profile("second", vec![]),
        profile("third", vec!["pre_tool_use"]),
    ];
    let probes = vec![ProfileFsProbe::none(); 3];
    let event = plain_event(EventType::PreToolUse);
    let active = get_active_profiles(&profiles, Some(&event), &probes);
    assert_eq!(active.len(), 2);
    assert_eq!(active[0].metadata.name, "first");
    assert_eq!(active[1].metadata.name, "third");
}

#[test]
fn test_content_trigger_matches() {
    let trigger = ContentTrigger {
        globs: vec!["**/*".to_string()],
        matches: vec!["uses_react".to_string(), "import react".to_string()],
        position: MatchPosition::Header,
    };
    assert!(content_trigger_matches("// import react at top", &trigger));
    assert!(!content_trigger_matches("plain text", &trigger));
}

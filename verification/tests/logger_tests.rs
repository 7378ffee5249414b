//! The hook log: writing entries as JSON lines, reading them back, and the
//! folded statistics.

use project_lint::events::{EventContext, EventType, ProjectLintEvent};
use project_lint::logger::{log_file_name, parse_log_line, HookLogger};

fn event(kind: EventType, source: &str, session: Option<&str>) -> ProjectLintEvent {
    let mut context = EventContext::default();
    context.ide_source = source.to_string();
    ProjectLintEvent {
        event_type: kind,
        session_id: session.map(String::from),
        timestamp: None,
        cwd: None,
        context,
    }
}

#[test]
fn test_log_event() {
    let mut logger = HookLogger::new();
    let mut ev = event(EventType::PreToolUse, "test", Some("test-session"));
    ev.context.tool_name = Some("bash".to_string());
    ev.context.command = Some("npm install".to_string());
    ev.context.file_path = Some("/test/file.rs".to_string());

    let line = logger.log_event(&ev, "Allow", Some("Test message"), Some(10), "2025-01-28T20:00:00Z");
    assert!(line.ends_with("\n"));

    let entries = logger.get_recent_logs(Some(1));
    assert_eq!(entries.len(), 1);
    let entry = &entries[0];
    assert_eq!(entry.event_type, "PreToolUse");
    assert_eq!(entry.source, "test");
    assert_eq!(entry.decision, "Allow");
    assert_eq!(entry.message, Some("Test message".to_string()));
    assert_eq!(entry.duration_ms, Some(10));

    // The line the logger hands out reads back as the same record.
    let parsed = parse_log_line(line.trim_end()).expect("the written line parses");
    assert_eq!(parsed.event_type, "PreToolUse");
    assert_eq!(parsed.source, "test");
    assert_eq!(parsed.session_id, Some("test-session".to_string()));
    assert_eq!(parsed.duration_ms, Some(10));
}

#[test]
fn test_unknown_kind_log_label() {
    let mut logger = HookLogger::new();
    let ev = event(EventType::Unknown("custom_hook".to_string()), "test", None);
    logger.log_event(&ev, "Allow", None, None, "t");
    let entries = logger.get_recent_logs(None);
    assert_eq!(entries[0].event_type, "Unknown(\"custom_hook\")");
}

#[test]
fn test_get_recent_logs_with_limit() {
    let mut logger = HookLogger::new();
    for i in 0..5u64 {
        let ev = event(EventType::PreToolUse, "test", Some(&format!("session-{}", i)));
        logger.log_event(&ev, "Allow", None, Some(i), "2025-01-28T20:00:00Z");
    }

    let entries = logger.get_recent_logs(Some(3));
    assert_eq!(entries.len(), 3);
    assert_eq!(entries[0].session_id, Some("session-2".to_string()));
    assert_eq!(entries[1].session_id, Some("session-3".to_string()));
    assert_eq!(entries[2].session_id, Some("session-4".to_string()));
}

#[test]
fn test_from_lines_skips_malformed() {
    let mut writer = HookLogger::new();
    let ev = event(EventType::PostToolUse, "assistant", None);
    let line = writer.log_event(&ev, "Warn", None, None, "2025-01-28T20:00:01Z");

    let lines = vec![
        line.trim_end().to_string(),
        "not json at all".to_string(),
        "{\"incomplete\": true}".to_string(),
    ];
    let reader = HookLogger::from_lines(&lines);
    assert_eq!(reader.entries.len(), 1);
    assert_eq!(reader.entries[0].event_type, "PostToolUse");
    assert_eq!(reader.entries[0].source, "assistant");
}

#[test]
fn test_get_stats() {
    let mut logger = HookLogger::new();
    let event1 = {
        let mut e = event(EventType::PreToolUse, "windsurf", Some("session-1"));
        e.context.tool_name = Some("bash".to_string());
        e
    };
    let event2 = {
        let mut e = event(EventType::PostToolUse, "assistant", Some("session-2"));
        e.context.tool_name = Some("node".to_string());
        e
    };

    logger.log_event(&event1, "Allow", None, Some(10), "t1");
    logger.log_event(&event2, "Warn", None, Some(20), "t2");
    logger.log_event(&event1, "Deny", None, Some(30), "t3");

    let stats = logger.get_stats();
    assert_eq!(stats.total_events, 3);
    assert_eq!(stats.event_count("PreToolUse"), 2);
    assert_eq!(stats.event_count("PostToolUse"), 1);
    assert_eq!(stats.source_count("windsurf"), 2);
    assert_eq!(stats.source_count("assistant"), 1);
    assert_eq!(stats.decision_count("Allow"), 1);
    assert_eq!(stats.decision_count("Warn"), 1);
    assert_eq!(stats.decision_count("Deny"), 1);
    assert_eq!(stats.total_duration_ms, 60);
    assert_eq!(stats.event_count_with_duration, 3);
    assert_eq!(stats.min_duration_ms, 10);
    assert_eq!(stats.max_duration_ms, 30);
}

#[test]
fn test_zero_duration_counts_for_minimum() {
    // A recorded duration of zero is a real measurement: the minimum over
    // the recorded durations is zero, not the next one up.
    let mut logger = HookLogger::new();
    let ev = event(EventType::PreToolUse, "test", None);
    logger.log_event(&ev, "Allow", None, Some(0), "t1");
    logger.log_event(&ev, "Allow", None, Some(5), "t2");

    let stats = logger.get_stats();
    assert_eq!(stats.event_count_with_duration, 2);
    assert_eq!(stats.min_duration_ms, 0);
    assert_eq!(stats.max_duration_ms, 5);
    assert_eq!(stats.total_duration_ms, 5);
}

#[test]
fn test_stats_idempotent() {
    let mut logger = HookLogger::new();
    let ev = event(EventType::Stop, "kiro", None);
    logger.log_event(&ev, "Allow", None, Some(7), "t");

    // Two reads without an intervening write see the same statistics.
    let first = logger.get_stats();
    let second = logger.get_stats();
    assert_eq!(first.total_events, second.total_events);
    assert_eq!(first.event_count("Stop"), second.event_count("Stop"));
    assert_eq!(first.source_count("kiro"), second.source_count("kiro"));
    assert_eq!(first.decision_count("Allow"), second.decision_count("Allow"));
    assert_eq!(first.total_duration_ms, second.total_duration_ms);
    assert_eq!(first.event_count_with_duration, second.event_count_with_duration);
    assert_eq!(first.min_duration_ms, second.min_duration_ms);
    assert_eq!(first.max_duration_ms, second.max_duration_ms);
}

#[test]
fn test_average_duration_calculation() {
    let mut logger = HookLogger::new();
    for i in 1..=3u64 {
        let ev = event(EventType::PreToolUse, "test", None);
        logger.log_event(&ev, "Allow", None, Some(i * 10), "t");
    }
    let stats = logger.get_stats();
    let average = if stats.event_count_with_duration == 0 {
        0.0
    } else {
        stats.total_duration_ms as f64 / stats.event_count_with_duration as f64
    };
    assert_eq!(average, 20.0);
}

#[test]
fn test_empty_log_stats() {
    let logger = HookLogger::new();
    let stats = logger.get_stats();

    assert_eq!(stats.total_events, 0);
    assert!(stats.event_counts.is_empty());
    assert!(stats.source_counts.is_empty());
    assert!(stats.decision_counts.is_empty());
    assert_eq!(stats.total_duration_ms, 0);
    assert_eq!(stats.event_count_with_duration, 0);
    assert_eq!(stats.min_duration_ms, 0);
    assert_eq!(stats.max_duration_ms, 0);
    let average = if stats.event_count_with_duration == 0 {
        0.0
    } else {
        stats.total_duration_ms as f64 / stats.event_count_with_duration as f64
    };
    assert_eq!(average, 0.0);
}

#[test]
fn test_log_file_name() {
    assert_eq!(log_file_name("2025-01-28"), "hook-log-2025-01-28.jsonl");
}

//! The event mappers: one adapter per agent source, translating the source's
//! raw JSON payload into the canonical event model, and a verdict back into
//! the source's own response shape.

use vstd::prelude::*;

verus! {

use crate::errors::ProjectLintError;
use crate::events::Decision;
use crate::events::EventContext;
use crate::events::EventContextV;
use crate::events::EventType;
use crate::events::EventTypeV;
use crate::events::EventV;
use crate::events::FileEdit;
use crate::events::FileEditV;
use crate::events::HookResult;
use crate::events::HookResultV;
use crate::events::ProjectLintEvent;
use crate::events::spec_empty_context;
use crate::json::JsonV;
use crate::json::JsonValue;
use crate::json::json_text;
use crate::json::jv_get;
use crate::json::jv_get_str;
use crate::json::parsed_json;
use crate::text::str_eq;
use crate::text::str_to_string;

/// The value under `key`, when `v` is an object that has it; JSON null
/// otherwise. This mirrors indexing into a parsed payload, where a missing
/// field reads as null.
pub open spec fn jv_field_or_null(v: JsonV, key: Seq<char>) -> JsonV {
    match jv_get(v, key) {
        Some(x) => x,
        None => JsonV::Null,
    }
}

/// The value under `key` as an owned copy, when `v` is an object that has
/// that field; JSON null otherwise.
fn field_or_null(v: &JsonValue, key: &str) -> (r: JsonValue)
    ensures
        r@ == jv_field_or_null(v@, key@),
{
    match v.get(key) {
        Some(x) => x.deep_clone(),
        None => JsonValue::Null,
    }
}

/// The string under `key` of the object under `outer`, if both exist.
fn nested_str(v: &JsonValue, outer: &str, key: &str) -> (r: Option<String>)
    ensures
        crate::events::view_opt_str(r) == jv_get_str(jv_field_or_null(v@, outer@), key@),
{
    match v.get(outer) {
        Some(x) => x.get_str(key),
        None => None,
    }
}

/// The first string of the event: `s` when present, the empty string
/// otherwise.
pub open spec fn or_empty(s: Option<Seq<char>>) -> Seq<char> {
    match s {
        Some(x) => x,
        None => Seq::empty(),
    }
}

// ------------------------------------------------------------------
// Windsurf
// ------------------------------------------------------------------

/// The canonical kind for a Windsurf action name; an unrecognized name stays
/// as it was reported.
pub open spec fn windsurf_type(name: Seq<char>) -> EventTypeV {
    if name == "pre_read_code"@ {
        EventTypeV::PreReadCode
    } else if name == "post_read_code"@ {
        EventTypeV::PostReadCode
    } else if name == "pre_write_code"@ {
        EventTypeV::PreWriteCode
    } else if name == "post_write_code"@ {
        EventTypeV::PostWriteCode
    } else if name == "pre_run_command"@ {
        EventTypeV::PreRunCommand
    } else if name == "post_run_command"@ {
        EventTypeV::PostRunCommand
    } else if name == "pre_mcp_tool_use"@ {
        EventTypeV::PreToolUse
    } else if name == "post_mcp_tool_use"@ {
        EventTypeV::PostToolUse
    } else if name == "pre_user_prompt"@ {
        EventTypeV::PreUserPrompt
    } else if name == "post_cascade_response"@ {
        EventTypeV::PostModelResponse
    } else {
        EventTypeV::Unknown(name)
    }
}

/// One edit of a Windsurf write event: an optional old string and the new
/// string; Windsurf reports plain string replacements, without line numbers.
pub open spec fn windsurf_edit(e: JsonV) -> FileEditV {
    FileEditV {
        old_string: jv_get_str(e, "old_string"@),
        new_string: or_empty(jv_get_str(e, "new_string"@)),
        start_line: None,
        end_line: None,
    }
}

/// The edits of a Windsurf write event, in reported order.
pub open spec fn windsurf_edits(a: Seq<JsonV>) -> Seq<FileEditV>
    decreases a,
{
    if a.len() == 0 {
        Seq::empty()
    } else {
        seq![windsurf_edit(a[0])] + windsurf_edits(a.skip(1))
    }
}

proof fn lemma_windsurf_edits(a: Seq<JsonV>)
    ensures
        windsurf_edits(a).len() == a.len(),
        forall|i: int| 0 <= i < a.len() ==> windsurf_edits(a)[i] == windsurf_edit(a[i]),
    decreases a.len(),
{
    if a.len() > 0 {
        lemma_windsurf_edits(a.skip(1));
        assert forall|i: int| 0 <= i < a.len() implies windsurf_edits(a)[i] == windsurf_edit(
            a[i],
        ) by {
            if i > 0 {
                assert(windsurf_edits(a)[i] == windsurf_edits(a.skip(1))[i - 1]);
                assert(a.skip(1)[i - 1] == a[i]);
            }
        }
    }
}

/// The context a Windsurf payload maps to, depending on the event's kind.
pub open spec fn windsurf_context(p: JsonV) -> EventContextV {
    let t = windsurf_type(or_empty(jv_get_str(p, "agent_action_name"@)));
    let ti = jv_field_or_null(p, "tool_info"@);
    let base = EventContextV {
        ide_source: "windsurf"@,
        original_payload: Some(p),
        ..spec_empty_context()
    };
    match t {
        EventTypeV::PreReadCode => EventContextV {
            file_path: jv_get_str(ti, "file_path"@),
            ..base
        },
        EventTypeV::PostReadCode => EventContextV {
            file_path: jv_get_str(ti, "file_path"@),
            ..base
        },
        EventTypeV::PreWriteCode => EventContextV {
            file_path: jv_get_str(ti, "file_path"@),
            edits: windsurf_opt_edits(ti),
            ..base
        },
        EventTypeV::PostWriteCode => EventContextV {
            file_path: jv_get_str(ti, "file_path"@),
            edits: windsurf_opt_edits(ti),
            ..base
        },
        EventTypeV::PreRunCommand => EventContextV {
            command: jv_get_str(ti, "command_line"@),
            ..base
        },
        EventTypeV::PostRunCommand => EventContextV {
            command: jv_get_str(ti, "command_line"@),
            ..base
        },
        EventTypeV::PreToolUse => EventContextV {
            tool_name: jv_get_str(ti, "mcp_tool_name"@),
            tool_input: Some(jv_field_or_null(ti, "mcp_tool_arguments"@)),
            ..base
        },
        EventTypeV::PostToolUse => EventContextV {
            tool_name: jv_get_str(ti, "mcp_tool_name"@),
            tool_input: Some(jv_field_or_null(ti, "mcp_tool_arguments"@)),
            tool_result: Some(jv_field_or_null(ti, "mcp_result"@)),
            ..base
        },
        EventTypeV::PreUserPrompt => EventContextV {
            user_prompt: jv_get_str(ti, "user_prompt"@),
            ..base
        },
        EventTypeV::PostModelResponse => EventContextV {
            model_response: jv_get_str(ti, "response"@),
            ..base
        },
        _ => base,
    }
}

/// The edits array of a write event's tool info, when it holds one.
pub open spec fn windsurf_opt_edits(ti: JsonV) -> Option<Seq<FileEditV>> {
    match jv_get(ti, "edits"@) {
        Some(JsonV::Arr(a)) => Some(windsurf_edits(a)),
        _ => None,
    }
}

/// The canonical event a Windsurf payload maps to.
pub open spec fn windsurf_event(p: JsonV) -> EventV {
    let t = windsurf_type(or_empty(jv_get_str(p, "agent_action_name"@)));
    let ti = jv_field_or_null(p, "tool_info"@);
    EventV {
        event_type: t,
        session_id: jv_get_str(p, "trajectory_id"@),
        timestamp: jv_get_str(p, "timestamp"@),
        cwd: if t is PreRunCommand || t is PostRunCommand {
            jv_get_str(ti, "cwd"@)
        } else {
            None
        },
        context: windsurf_context(p),
    }
}

/// The response text Windsurf understands: a JSON object naming the decision,
/// and for a warning with a rewritten command, the rewritten tool input.
pub open spec fn windsurf_response(r: HookResultV) -> Seq<char> {
    json_text(
        JsonV::Obj(
            match r.decision {
                Decision::Deny => seq![("decision"@, JsonV::Str("deny"@))],
                Decision::Warn => seq![("decision"@, JsonV::Str("warn"@))] + (
                match r.modified_input {
                    Some(mi) => seq![("modified_input"@, mi)],
                    None => Seq::empty(),
                }),
                Decision::Ask => seq![("decision"@, JsonV::Str("ask"@))],
                Decision::Allow => seq![("decision"@, JsonV::Str("allow"@))],
            },
        ),
    )
}

/// The adapter for Windsurf's hook payloads.
pub struct WindsurfMapper;

fn windsurf_kind(name: &str) -> (r: EventType)
    ensures
        r@ == windsurf_type(name@),
{
    if str_eq(name, "pre_read_code") {
        EventType::PreReadCode
    } else if str_eq(name, "post_read_code") {
        EventType::PostReadCode
    } else if str_eq(name, "pre_write_code") {
        EventType::PreWriteCode
    } else if str_eq(name, "post_write_code") {
        EventType::PostWriteCode
    } else if str_eq(name, "pre_run_command") {
        EventType::PreRunCommand
    } else if str_eq(name, "post_run_command") {
        EventType::PostRunCommand
    } else if str_eq(name, "pre_mcp_tool_use") {
        EventType::PreToolUse
    } else if str_eq(name, "post_mcp_tool_use") {
        EventType::PostToolUse
    } else if str_eq(name, "pre_user_prompt") {
        EventType::PreUserPrompt
    } else if str_eq(name, "post_cascade_response") {
        EventType::PostModelResponse
    } else {
        EventType::Unknown(str_to_string(name))
    }
}

impl WindsurfMapper {
    /// Maps one raw Windsurf payload to a canonical event; text that is not
    /// JSON is a parse error.
    pub fn map_event(&self, input: &str) -> (r: Result<ProjectLintEvent, ProjectLintError>)
        ensures
            match r {
                Ok(ev) => parsed_json(input@) is Some && ev@ == windsurf_event(
                    parsed_json(input@)->Some_0,
                ),
                Err(_) => parsed_json(input@) is None,
            },
    {
        let payload = match crate::json::parse_json(input) {
            Some(p) => p,
            None => {
                return Err(ProjectLintError::Parse(str_to_string("malformed hook payload")));
            },
        };
        let ghost pv = payload@;
        let action_name = match payload.get_str("agent_action_name") {
            Some(s) => s,
            None => String::new(),
        };
        let event_type = windsurf_kind(action_name.as_str());
        let mut context = EventContext::default();
        context.ide_source = str_to_string("windsurf");
        let mut cwd: Option<String> = None;
        match &event_type {
            EventType::PreReadCode | EventType::PostReadCode => {
                context.file_path = nested_str(&payload, "tool_info", "file_path");
            },
            EventType::PreWriteCode | EventType::PostWriteCode => {
                context.file_path = nested_str(&payload, "tool_info", "file_path");
                let ti = field_or_null(&payload, "tool_info");
                match ti.get("edits") {
                    Some(JsonValue::Arr(arr)) => {
                        let ghost av = crate::json::jvs_of(arr@);
                        proof {
                            crate::json::lemma_jvs_of(arr@);
                            lemma_windsurf_edits(av);
                        }
                        let mut edits: Vec<FileEdit> = Vec::new();
                        let mut i: usize = 0;
                        while i < arr.len()
                            invariant
                                i <= arr@.len(),
                                av == crate::json::jvs_of(arr@),
                                av.len() == arr@.len(),
                                forall|j: int| 0 <= j < av.len() ==> av[j] == arr@[j]@,
                                windsurf_edits(av).len() == av.len(),
                                forall|j: int| 0 <= j < av.len() ==> windsurf_edits(av)[j]
                                    == windsurf_edit(av[j]),
                                edits@.len() == i,
                                forall|j: int| 0 <= j < i ==> edits@[j]@ == windsurf_edit(
                                    av[j],
                                ),
                            decreases arr.len() - i,
                        {
                            let e = &arr[i];
                            let new_string = match e.get_str("new_string") {
                                Some(s) => s,
                                None => String::new(),
                            };
                            let edit = FileEdit {
                                old_string: e.get_str("old_string"),
                                new_string,
                                start_line: None,
                                end_line: None,
                            };
                            assert(edit@ =~= windsurf_edit(av[i as int]));
                            edits.push(edit);
                            i = i + 1;
                        }
                        proof {
                            crate::events::lemma_view_edits(edits@);
                            assert(crate::events::view_edits(edits@) =~= windsurf_edits(av));
                        }
                        assert(jv_get(ti@, "edits"@) == Some(JsonV::Arr(av)));
                        context.edits = Some(edits);
                    },
                    _ => {},
                }
            },
            EventType::PreRunCommand | EventType::PostRunCommand => {
                context.command = nested_str(&payload, "tool_info", "command_line");
                cwd = nested_str(&payload, "tool_info", "cwd");
            },
            EventType::PreToolUse => {
                context.tool_name = nested_str(&payload, "tool_info", "mcp_tool_name");
                let ti = field_or_null(&payload, "tool_info");
                context.tool_input = Some(field_or_null(&ti, "mcp_tool_arguments"));
            },
            EventType::PostToolUse => {
                context.tool_name = nested_str(&payload, "tool_info", "mcp_tool_name");
                let ti = field_or_null(&payload, "tool_info");
                context.tool_input = Some(field_or_null(&ti, "mcp_tool_arguments"));
                context.tool_result = Some(field_or_null(&ti, "mcp_result"));
            },
            EventType::PreUserPrompt => {
                context.user_prompt = nested_str(&payload, "tool_info", "user_prompt");
            },
            EventType::PostModelResponse => {
                context.model_response = nested_str(&payload, "tool_info", "response");
            },
            _ => {},
        }
        let session_id = payload.get_str("trajectory_id");
        let timestamp = payload.get_str("timestamp");
        context.original_payload = Some(payload);
        let ev = ProjectLintEvent { event_type, session_id, timestamp, cwd, context };
        assert(ev@.context =~= windsurf_context(pv));
        assert(ev@ =~= windsurf_event(pv));
        Ok(ev)
    }

    /// Prints the verdict in Windsurf's response shape.
    pub fn format_response(&self, result: HookResult) -> (r: String)
        ensures
            r@ == windsurf_response(result@),
    {
        let ghost rv = result@;
        let ghost expected_entries: Seq<(Seq<char>, JsonV)> = match rv.decision {
            Decision::Deny => seq![("decision"@, JsonV::Str("deny"@))],
            Decision::Warn => seq![("decision"@, JsonV::Str("warn"@))] + (
            match rv.modified_input {
                Some(mi) => seq![("modified_input"@, mi)],
                None => Seq::empty(),
            }),
            Decision::Ask => seq![("decision"@, JsonV::Str("ask"@))],
            Decision::Allow => seq![("decision"@, JsonV::Str("allow"@))],
        };
        let mut fields: Vec<(String, JsonValue)> = Vec::new();
        match result.decision {
            Decision::Deny => {
                fields.push((str_to_string("decision"), JsonValue::Str(str_to_string("deny"))));
            },
            Decision::Warn => {
                fields.push((str_to_string("decision"), JsonValue::Str(str_to_string("warn"))));
                if let Some(mi) = result.modified_input {
                    fields.push((str_to_string("modified_input"), mi));
                }
            },
            Decision::Ask => {
                fields.push((str_to_string("decision"), JsonValue::Str(str_to_string("ask"))));
            },
            Decision::Allow => {
                fields.push(
                    (str_to_string("decision"), JsonValue::Str(str_to_string("allow"))),
                );
            },
        }
        let ghost fv = fields@;
        proof {
            crate::json::lemma_jents_of(fv);
            assert(crate::json::jents_of(fv) =~= expected_entries);
        }
        let obj = JsonValue::Obj(fields);
        assert(obj@ == JsonV::Obj(expected_entries));
        crate::json::to_json_string(&obj)
    }
}

// ------------------------------------------------------------------
// Assistant
// ------------------------------------------------------------------

/// The canonical kind for a assistant hook event name; an unrecognized name
/// stays as it was reported.
pub open spec fn assistant_type(name: Seq<char>) -> EventTypeV {
    if name == "PreToolUse"@ {
        EventTypeV::PreToolUse
    } else if name == "PostToolUse"@ {
        EventTypeV::PostToolUse
    } else if name == "UserPromptSubmit"@ {
        EventTypeV::PreUserPrompt
    } else if name == "SessionStart"@ {
        EventTypeV::SessionStart
    } else if name == "SessionEnd"@ {
        EventTypeV::SessionEnd
    } else if name == "Stop"@ {
        EventTypeV::Stop
    } else if name == "SubagentStop"@ {
        EventTypeV::SubagentStop
    } else if name == "Notification"@ {
        EventTypeV::Notification
    } else if name == "PermissionRequest"@ {
        EventTypeV::PermissionRequest
    } else {
        EventTypeV::Unknown(name)
    }
}

/// Whether an assistant tool name carries a file path in its input.
pub open spec fn assistant_file_tool(name: Seq<char>) -> bool {
    name == "Read"@ || name == "Edit"@ || name == "Write"@
}

/// The context an assistant payload maps to, depending on the event's kind.
pub open spec fn assistant_context(p: JsonV) -> EventContextV {
    let t = assistant_type(or_empty(jv_get_str(p, "hook_event_name"@)));
    let base = EventContextV {
        ide_source: "assistant"@,
        original_payload: Some(p),
        ..spec_empty_context()
    };
    match t {
        EventTypeV::PreToolUse => EventContextV {
            tool_name: jv_get_str(p, "tool_name"@),
            tool_input: Some(jv_field_or_null(p, "tool_input"@)),
            file_path: assistant_file_path(p),
            ..base
        },
        EventTypeV::PostToolUse => EventContextV {
            tool_name: jv_get_str(p, "tool_name"@),
            tool_input: Some(jv_field_or_null(p, "tool_input"@)),
            tool_result: Some(jv_field_or_null(p, "tool_response"@)),
            file_path: assistant_file_path(p),
            ..base
        },
        EventTypeV::PreUserPrompt => EventContextV {
            user_prompt: jv_get_str(p, "prompt"@),
            ..base
        },
        _ => base,
    }
}

/// The file path of an assistant tool event whose tool reads or writes one file.
pub open spec fn assistant_file_path(p: JsonV) -> Option<Seq<char>> {
    match jv_get_str(p, "tool_name"@) {
        Some(name) => if assistant_file_tool(name) {
            jv_get_str(jv_field_or_null(p, "tool_input"@), "file_path"@)
        } else {
            None
        },
        None => None,
    }
}

/// The canonical event an assistant payload maps to.
pub open spec fn assistant_event(p: JsonV) -> EventV {
    EventV {
        event_type: assistant_type(or_empty(jv_get_str(p, "hook_event_name"@))),
        session_id: jv_get_str(p, "session_id"@),
        timestamp: None,
        cwd: jv_get_str(p, "cwd"@),
        context: assistant_context(p),
    }
}

/// The response text the assistant understands: denial stops the run with a reason,
/// a warning adds a system message, an allowed rewrite or a question goes
/// under `hookSpecificOutput`.
pub open spec fn assistant_response(r: HookResultV) -> Seq<char> {
    json_text(
        JsonV::Obj(
            match r.decision {
                Decision::Deny => seq![("continue"@, JsonV::Bool(false))] + (
                match r.message {
                    Some(m) => seq![("stopReason"@, JsonV::Str(m))],
                    None => Seq::empty(),
                }),
                Decision::Warn => seq![("continue"@, JsonV::Bool(true))] + (
                match r.message {
                    Some(m) => seq![("systemMessage"@, JsonV::Str(m))],
                    None => Seq::empty(),
                }),
                Decision::Allow => seq![("continue"@, JsonV::Bool(true))] + (
                match r.modified_input {
                    Some(mi) => seq![
                        (
                            "hookSpecificOutput"@,
                            JsonV::Obj(
                                seq![
                                    ("permissionDecision"@, JsonV::Str("allow"@)),
                                    ("updatedInput"@, mi),
                                ],
                            ),
                        ),
                    ],
                    None => Seq::empty(),
                }),
                Decision::Ask => seq![
                    ("continue"@, JsonV::Bool(true)),
                    (
                        "hookSpecificOutput"@,
                        JsonV::Obj(
                            seq![
                                ("permissionDecision"@, JsonV::Str("ask"@)),
                                ("permissionDecisionReason"@, JsonV::Str(or_empty(r.message))),
                            ],
                        ),
                    ),
                ],
            },
        ),
    )
}

/// The adapter for the assistant's own hook payloads.
pub struct AssistantMapper;

fn assistant_kind(name: &str) -> (r: EventType)
    ensures
        r@ == assistant_type(name@),
{
    if str_eq(name, "PreToolUse") {
        EventType::PreToolUse
    } else if str_eq(name, "PostToolUse") {
        EventType::PostToolUse
    } else if str_eq(name, "UserPromptSubmit") {
        EventType::PreUserPrompt
    } else if str_eq(name, "SessionStart") {
        EventType::SessionStart
    } else if str_eq(name, "SessionEnd") {
        EventType::SessionEnd
    } else if str_eq(name, "Stop") {
        EventType::Stop
    } else if str_eq(name, "SubagentStop") {
        EventType::SubagentStop
    } else if str_eq(name, "Notification") {
        EventType::Notification
    } else if str_eq(name, "PermissionRequest") {
        EventType::PermissionRequest
    } else {
        EventType::Unknown(str_to_string(name))
    }
}

impl AssistantMapper {
    /// Maps one raw assistant payload to a canonical event; text that is not
    /// JSON is a parse error.
    pub fn map_event(&self, input: &str) -> (r: Result<ProjectLintEvent, ProjectLintError>)
        ensures
            match r {
                Ok(ev) => parsed_json(input@) is Some && ev@ == assistant_event(
                    parsed_json(input@)->Some_0,
                ),
                Err(_) => parsed_json(input@) is None,
            },
    {
        let payload = match crate::json::parse_json(input) {
            Some(p) => p,
            None => {
                return Err(ProjectLintError::Parse(str_to_string("malformed hook payload")));
            },
        };
        let ghost pv = payload@;
        let event_name = match payload.get_str("hook_event_name") {
            Some(s) => s,
            None => String::new(),
        };
        let event_type = assistant_kind(event_name.as_str());
        let mut context = EventContext::default();
        context.ide_source = str_to_string("assistant");
        let cwd = payload.get_str("cwd");
        match &event_type {
            EventType::PreToolUse | EventType::PostToolUse => {
                context.tool_name = payload.get_str("tool_name");
                let ti = field_or_null(&payload, "tool_input");
                context.file_path = match &context.tool_name {
                    Some(name) => {
                        if str_eq(name.as_str(), "Read") || str_eq(name.as_str(), "Edit")
                            || str_eq(name.as_str(), "Write") {
                            ti.get_str("file_path")
                        } else {
                            None
                        }
                    },
                    None => None,
                };
                context.tool_input = Some(ti);
                let is_post = match &event_type {
                    EventType::PostToolUse => true,
                    _ => false,
                };
                if is_post {
                    context.tool_result = Some(field_or_null(&payload, "tool_response"));
                }
            },
            EventType::PreUserPrompt => {
                context.user_prompt = payload.get_str("prompt");
            },
            _ => {},
        }
        let session_id = payload.get_str("session_id");
        context.original_payload = Some(payload);
        let ev = ProjectLintEvent { event_type, session_id, timestamp: None, cwd, context };
        assert(ev@.context =~= assistant_context(pv));
        assert(ev@ =~= assistant_event(pv));
        Ok(ev)
    }

    /// Prints the verdict in the assistant's response shape.
    pub fn format_response(&self, result: HookResult) -> (r: String)
        ensures
            r@ == assistant_response(result@),
    {
        let ghost rv = result@;
        let ghost expected_entries: Seq<(Seq<char>, JsonV)> = match rv.decision {
            Decision::Deny => seq![("continue"@, JsonV::Bool(false))] + (match rv.message {
                Some(m) => seq![("stopReason"@, JsonV::Str(m))],
                None => Seq::empty(),
            }),
            Decision::Warn => seq![("continue"@, JsonV::Bool(true))] + (match rv.message {
                Some(m) => seq![("systemMessage"@, JsonV::Str(m))],
                None => Seq::empty(),
            }),
            Decision::Allow => seq![("continue"@, JsonV::Bool(true))] + (
            match rv.modified_input {
                Some(mi) => seq![
                    (
                        "hookSpecificOutput"@,
                        JsonV::Obj(
                            seq![
                                ("permissionDecision"@, JsonV::Str("allow"@)),
                                ("updatedInput"@, mi),
                            ],
                        ),
                    ),
                ],
                None => Seq::empty(),
            }),
            Decision::Ask => seq![
                ("continue"@, JsonV::Bool(true)),
                (
                    "hookSpecificOutput"@,
                    JsonV::Obj(
                        seq![
                            ("permissionDecision"@, JsonV::Str("ask"@)),
                            ("permissionDecisionReason"@, JsonV::Str(or_empty(rv.message))),
                        ],
                    ),
                ),
            ],
        };
        let mut fields: Vec<(String, JsonValue)> = Vec::new();
        match result.decision {
            Decision::Deny => {
                fields.push((str_to_string("continue"), JsonValue::Bool(false)));
                if let Some(m) = result.message {
                    fields.push((str_to_string("stopReason"), JsonValue::Str(m)));
                }
                proof {
                    crate::json::lemma_jents_of(fields@);
                    assert(crate::json::jents_of(fields@) =~= expected_entries);
                }
            },
            Decision::Warn => {
                fields.push((str_to_string("continue"), JsonValue::Bool(true)));
                if let Some(m) = result.message {
                    fields.push((str_to_string("systemMessage"), JsonValue::Str(m)));
                }
                proof {
                    crate::json::lemma_jents_of(fields@);
                    assert(crate::json::jents_of(fields@) =~= expected_entries);
                }
            },
            Decision::Allow => {
                fields.push((str_to_string("continue"), JsonValue::Bool(true)));
                if let Some(mi) = result.modified_input {
                    let ghost gmi = mi@;
                    let inner: Vec<(String, JsonValue)> = vec![
                        (
                            str_to_string("permissionDecision"),
                            JsonValue::Str(str_to_string("allow")),
                        ),
                        (str_to_string("updatedInput"), mi),
                    ];
                    proof {
                        crate::json::lemma_jents_of(inner@);
                        assert(crate::json::jents_of(inner@) =~= seq![
                            ("permissionDecision"@, JsonV::Str("allow"@)),
                            ("updatedInput"@, gmi),
                        ]);
                    }
                    fields.push(
                        (str_to_string("hookSpecificOutput"), JsonValue::Obj(inner)),
                    );
                }
                proof {
                    crate::json::lemma_jents_of(fields@);
                    assert(crate::json::jents_of(fields@) =~= expected_entries);
                }
            },
            Decision::Ask => {
                fields.push((str_to_string("continue"), JsonValue::Bool(true)));
                let reason = match result.message {
                    Some(m) => m,
                    None => String::new(),
                };
                let ghost grs = reason@;
                let inner: Vec<(String, JsonValue)> = vec![
                    (
                        str_to_string("permissionDecision"),
                        JsonValue::Str(str_to_string("ask")),
                    ),
                    (str_to_string("permissionDecisionReason"), JsonValue::Str(reason)),
                ];
                proof {
                    crate::json::lemma_jents_of(inner@);
                    assert(crate::json::jents_of(inner@) =~= seq![
                        ("permissionDecision"@, JsonV::Str("ask"@)),
                        ("permissionDecisionReason"@, JsonV::Str(grs)),
                    ]);
                    assert(grs == or_empty(rv.message));
                }
                fields.push((str_to_string("hookSpecificOutput"), JsonValue::Obj(inner)));
                proof {
                    crate::json::lemma_jents_of(fields@);
                    assert(crate::json::jents_of(fields@) =~= expected_entries);
                }
            },
        }
        let ghost fv = fields@;
        let obj = JsonValue::Obj(fields);
        assert(obj@ == JsonV::Obj(crate::json::jents_of(fv)));
        assert(obj@ == JsonV::Obj(expected_entries));
        crate::json::to_json_string(&obj)
    }
}

// ------------------------------------------------------------------
// Kiro
// ------------------------------------------------------------------

/// The event name a Kiro payload reports: its `event` field, then its `type`
/// field, then the empty string.
pub open spec fn kiro_name(p: JsonV) -> Seq<char> {
    match jv_get_str(p, "event"@) {
        Some(s) => s,
        None => or_empty(jv_get_str(p, "type"@)),
    }
}

/// The canonical kind for a Kiro event name; an unrecognized name stays as it
/// was reported.
pub open spec fn kiro_type(name: Seq<char>) -> EventTypeV {
    if name == "file_save"@ || name == "file.save"@ || name == "file_create"@ || name
        == "file.create"@ {
        EventTypeV::PostWriteCode
    } else if name == "prompt_submit"@ || name == "prompt.submit"@ {
        EventTypeV::PreUserPrompt
    } else if name == "turn_complete"@ || name == "turn.complete"@ {
        EventTypeV::PostModelResponse
    } else {
        EventTypeV::Unknown(name)
    }
}

/// The canonical event a Kiro payload maps to: the file under its `file` or
/// `path` field and the prompt under `prompt`, whatever the kind.
pub open spec fn kiro_event(p: JsonV) -> EventV {
    EventV {
        event_type: kiro_type(kiro_name(p)),
        session_id: jv_get_str(p, "session_id"@),
        timestamp: None,
        cwd: None,
        context: EventContextV {
            ide_source: "kiro"@,
            original_payload: Some(p),
            file_path: match jv_get_str(p, "file"@) {
                Some(s) => Some(s),
                None => jv_get_str(p, "path"@),
            },
            user_prompt: jv_get_str(p, "prompt"@),
            ..spec_empty_context()
        },
    }
}

/// The adapter for Kiro's hook payloads.
pub struct KiroMapper;

fn kiro_kind(name: &str) -> (r: EventType)
    ensures
        r@ == kiro_type(name@),
{
    if str_eq(name, "file_save") || str_eq(name, "file.save") || str_eq(name, "file_create")
        || str_eq(name, "file.create") {
        EventType::PostWriteCode
    } else if str_eq(name, "prompt_submit") || str_eq(name, "prompt.submit") {
        EventType::PreUserPrompt
    } else if str_eq(name, "turn_complete") || str_eq(name, "turn.complete") {
        EventType::PostModelResponse
    } else {
        EventType::Unknown(str_to_string(name))
    }
}

impl KiroMapper {
    /// Maps one raw Kiro payload to a canonical event; text that is not JSON
    /// is a parse error.
    pub fn map_event(&self, input: &str) -> (r: Result<ProjectLintEvent, ProjectLintError>)
        ensures
            match r {
                Ok(ev) => parsed_json(input@) is Some && ev@ == kiro_event(
                    parsed_json(input@)->Some_0,
                ),
                Err(_) => parsed_json(input@) is None,
            },
    {
        let payload = match crate::json::parse_json(input) {
            Some(p) => p,
            None => {
                return Err(ProjectLintError::Parse(str_to_string("malformed hook payload")));
            },
        };
        let ghost pv = payload@;
        let event_name = match payload.get_str("event") {
            Some(s) => s,
            None => match payload.get_str("type") {
                Some(s) => s,
                None => String::new(),
            },
        };
        let event_type = kiro_kind(event_name.as_str());
        let mut context = EventContext::default();
        context.ide_source = str_to_string("kiro");
        context.file_path = match payload.get_str("file") {
            Some(s) => Some(s),
            None => payload.get_str("path"),
        };
        context.user_prompt = payload.get_str("prompt");
        let session_id = payload.get_str("session_id");
        context.original_payload = Some(payload);
        let ev = ProjectLintEvent {
            event_type,
            session_id,
            timestamp: None,
            cwd: None,
            context,
        };
        assert(ev@.context =~= kiro_event(pv).context);
        assert(ev@ =~= kiro_event(pv));
        Ok(ev)
    }

    /// Prints the verdict in Kiro's response shape: Kiro reads nothing but
    /// the process exit code, so the response body is empty.
    pub fn format_response(&self, _result: HookResult) -> (r: String)
        ensures
            r@ == Seq::<char>::empty(),
    {
        String::new()
    }
}

} // verus!

//! The canonical event model: one `ProjectLintEvent` per reported agent
//! action, with its context, and the engine's verdict type `HookResult`.

use vstd::prelude::*;

verus! {

use crate::json::JsonValue;
use crate::json::JsonV;
use crate::text::str_to_string;

/// The canonical kind of an agent event. `Unknown` keeps the name the source
/// reported, so rules keyed on raw trigger strings can still match it.
#[derive(Debug)]
pub enum EventType {
    SessionStart,
    SessionEnd,
    PreToolUse,
    PostToolUse,
    PreReadCode,
    PostReadCode,
    PreWriteCode,
    PostWriteCode,
    PreRunCommand,
    PostRunCommand,
    PreUserPrompt,
    PostModelResponse,
    Notification,
    PermissionRequest,
    Stop,
    SubagentStop,
    Unknown(String),
}

/// The mathematical form of an event kind.
#[verifier::ext_equal]
pub enum EventTypeV {
    SessionStart,
    SessionEnd,
    PreToolUse,
    PostToolUse,
    PreReadCode,
    PostReadCode,
    PreWriteCode,
    PostWriteCode,
    PreRunCommand,
    PostRunCommand,
    PreUserPrompt,
    PostModelResponse,
    Notification,
    PermissionRequest,
    Stop,
    SubagentStop,
    Unknown(Seq<char>),
}

impl View for EventType {
    type V = EventTypeV;

    open spec fn view(&self) -> EventTypeV {
        match self {
            EventType::SessionStart => EventTypeV::SessionStart,
            EventType::SessionEnd => EventTypeV::SessionEnd,
            EventType::PreToolUse => EventTypeV::PreToolUse,
            EventType::PostToolUse => EventTypeV::PostToolUse,
            EventType::PreReadCode => EventTypeV::PreReadCode,
            EventType::PostReadCode => EventTypeV::PostReadCode,
            EventType::PreWriteCode => EventTypeV::PreWriteCode,
            EventType::PostWriteCode => EventTypeV::PostWriteCode,
            EventType::PreRunCommand => EventTypeV::PreRunCommand,
            EventType::PostRunCommand => EventTypeV::PostRunCommand,
            EventType::PreUserPrompt => EventTypeV::PreUserPrompt,
            EventType::PostModelResponse => EventTypeV::PostModelResponse,
            EventType::Notification => EventTypeV::Notification,
            EventType::PermissionRequest => EventTypeV::PermissionRequest,
            EventType::Stop => EventTypeV::Stop,
            EventType::SubagentStop => EventTypeV::SubagentStop,
            EventType::Unknown(s) => EventTypeV::Unknown(s@),
        }
    }
}

/// The canonical string name of an event kind: the snake_case name of the
/// variant, and for `Unknown` the name the source reported, unchanged.
pub open spec fn spec_type_name(t: EventTypeV) -> Seq<char> {
    match t {
        EventTypeV::SessionStart => "session_start"@,
        EventTypeV::SessionEnd => "session_end"@,
        EventTypeV::PreToolUse => "pre_tool_use"@,
        EventTypeV::PostToolUse => "post_tool_use"@,
        EventTypeV::PreReadCode => "pre_read_code"@,
        EventTypeV::PostReadCode => "post_read_code"@,
        EventTypeV::PreWriteCode => "pre_write_code"@,
        EventTypeV::PostWriteCode => "post_write_code"@,
        EventTypeV::PreRunCommand => "pre_run_command"@,
        EventTypeV::PostRunCommand => "post_run_command"@,
        EventTypeV::PreUserPrompt => "pre_user_prompt"@,
        EventTypeV::PostModelResponse => "post_model_response"@,
        EventTypeV::Notification => "notification"@,
        EventTypeV::PermissionRequest => "permission_request"@,
        EventTypeV::Stop => "stop"@,
        EventTypeV::SubagentStop => "subagent_stop"@,
        EventTypeV::Unknown(s) => s,
    }
}

/// The log label of an event kind: the variant's own name, and for an
/// unknown kind the reported name framed as `Unknown("name")`.
pub open spec fn spec_type_label(t: EventTypeV) -> Seq<char> {
    match t {
        EventTypeV::SessionStart => "SessionStart"@,
        EventTypeV::SessionEnd => "SessionEnd"@,
        EventTypeV::PreToolUse => "PreToolUse"@,
        EventTypeV::PostToolUse => "PostToolUse"@,
        EventTypeV::PreReadCode => "PreReadCode"@,
        EventTypeV::PostReadCode => "PostReadCode"@,
        EventTypeV::PreWriteCode => "PreWriteCode"@,
        EventTypeV::PostWriteCode => "PostWriteCode"@,
        EventTypeV::PreRunCommand => "PreRunCommand"@,
        EventTypeV::PostRunCommand => "PostRunCommand"@,
        EventTypeV::PreUserPrompt => "PreUserPrompt"@,
        EventTypeV::PostModelResponse => "PostModelResponse"@,
        EventTypeV::Notification => "Notification"@,
        EventTypeV::PermissionRequest => "PermissionRequest"@,
        EventTypeV::Stop => "Stop"@,
        EventTypeV::SubagentStop => "SubagentStop"@,
        EventTypeV::Unknown(s) => "Unknown(\""@ + s + "\")"@,
    }
}

impl EventType {
    /// The canonical string name of this event kind; the same serialization
    /// the rule engine compares trigger strings against.
    pub fn canonical_name(&self) -> (r: String)
        ensures
            r@ == spec_type_name(self@),
    {
        match self {
            EventType::SessionStart => str_to_string("session_start"),
            EventType::SessionEnd => str_to_string("session_end"),
            EventType::PreToolUse => str_to_string("pre_tool_use"),
            EventType::PostToolUse => str_to_string("post_tool_use"),
            EventType::PreReadCode => str_to_string("pre_read_code"),
            EventType::PostReadCode => str_to_string("post_read_code"),
            EventType::PreWriteCode => str_to_string("pre_write_code"),
            EventType::PostWriteCode => str_to_string("post_write_code"),
            EventType::PreRunCommand => str_to_string("pre_run_command"),
            EventType::PostRunCommand => str_to_string("post_run_command"),
            EventType::PreUserPrompt => str_to_string("pre_user_prompt"),
            EventType::PostModelResponse => str_to_string("post_model_response"),
            EventType::Notification => str_to_string("notification"),
            EventType::PermissionRequest => str_to_string("permission_request"),
            EventType::Stop => str_to_string("stop"),
            EventType::SubagentStop => str_to_string("subagent_stop"),
            EventType::Unknown(s) => str_to_string(s.as_str()),
        }
    }

    /// The label under which this kind appears in the hook log: the
    /// variant's own name, an unknown kind as `Unknown("name")`. This is the
    /// form the log file has always carried, distinct from the canonical
    /// snake_case name the engine matches triggers against.
    pub fn label(&self) -> (r: String)
        ensures
            r@ == spec_type_label(self@),
    {
        match self {
            EventType::SessionStart => str_to_string("SessionStart"),
            EventType::SessionEnd => str_to_string("SessionEnd"),
            EventType::PreToolUse => str_to_string("PreToolUse"),
            EventType::PostToolUse => str_to_string("PostToolUse"),
            EventType::PreReadCode => str_to_string("PreReadCode"),
            EventType::PostReadCode => str_to_string("PostReadCode"),
            EventType::PreWriteCode => str_to_string("PreWriteCode"),
            EventType::PostWriteCode => str_to_string("PostWriteCode"),
            EventType::PreRunCommand => str_to_string("PreRunCommand"),
            EventType::PostRunCommand => str_to_string("PostRunCommand"),
            EventType::PreUserPrompt => str_to_string("PreUserPrompt"),
            EventType::PostModelResponse => str_to_string("PostModelResponse"),
            EventType::Notification => str_to_string("Notification"),
            EventType::PermissionRequest => str_to_string("PermissionRequest"),
            EventType::Stop => str_to_string("Stop"),
            EventType::SubagentStop => str_to_string("SubagentStop"),
            EventType::Unknown(s) => {
                let mut out = str_to_string("Unknown(\"");
                crate::text::append_str(&mut out, s.as_str());
                crate::text::append_str(&mut out, "\")");
                out
            },
        }
    }

    /// Whether this is the `PreToolUse` kind.
    pub fn is_pre_tool_use(&self) -> (r: bool)
        ensures
            r == (self@ is PreToolUse),
    {
        match self {
            EventType::PreToolUse => true,
            _ => false,
        }
    }
}

/// One textual replacement reported by a write event.
#[derive(Debug)]
pub struct FileEdit {
    pub old_string: Option<String>,
    pub new_string: String,
    pub start_line: Option<usize>,
    pub end_line: Option<usize>,
}

/// The mathematical form of a file edit.
#[verifier::ext_equal]
pub struct FileEditV {
    pub old_string: Option<Seq<char>>,
    pub new_string: Seq<char>,
    pub start_line: Option<int>,
    pub end_line: Option<int>,
}

/// The sequence form of an optional string.
pub open spec fn view_opt_str(o: Option<String>) -> Option<Seq<char>> {
    match o {
        Some(s) => Some(s@),
        None => None,
    }
}

/// The mathematical form of an optional JSON value.
pub open spec fn view_opt_json(o: Option<JsonValue>) -> Option<JsonV> {
    match o {
        Some(v) => Some(v@),
        None => None,
    }
}

impl View for FileEdit {
    type V = FileEditV;

    open spec fn view(&self) -> FileEditV {
        FileEditV {
            old_string: view_opt_str(self.old_string),
            new_string: self.new_string@,
            start_line: match self.start_line {
                Some(n) => Some(n as int),
                None => None,
            },
            end_line: match self.end_line {
                Some(n) => Some(n as int),
                None => None,
            },
        }
    }
}

/// The mathematical forms of a sequence of file edits.
pub open spec fn view_edits(e: Seq<FileEdit>) -> Seq<FileEditV>
    decreases e,
{
    if e.len() == 0 {
        Seq::empty()
    } else {
        seq![e[0]@] + view_edits(e.skip(1))
    }
}

/// The form of a sequence of edits is the sequence of the edits' forms.
pub proof fn lemma_view_edits(e: Seq<FileEdit>)
    ensures
        view_edits(e).len() == e.len(),
        forall|i: int| 0 <= i < e.len() ==> view_edits(e)[i] == e[i]@,
    decreases e.len(),
{
    if e.len() > 0 {
        lemma_view_edits(e.skip(1));
        assert forall|i: int| 0 <= i < e.len() implies view_edits(e)[i] == e[i]@ by {
            if i > 0 {
                assert(view_edits(e)[i] == view_edits(e.skip(1))[i - 1]);
                assert(e.skip(1)[i - 1] == e[i]);
            }
        }
    }
}

/// The optional context an event carries, depending on its kind. The raw
/// source payload is always retained in `original_payload`, so the engine can
/// probe source-specific fields the canonical model does not promote.
#[derive(Debug)]
pub struct EventContext {
    pub file_path: Option<String>,
    pub file_content: Option<String>,
    pub edits: Option<Vec<FileEdit>>,
    pub tool_name: Option<String>,
    pub tool_input: Option<JsonValue>,
    pub tool_result: Option<JsonValue>,
    pub command: Option<String>,
    pub exit_code: Option<i64>,
    pub user_prompt: Option<String>,
    pub model_response: Option<String>,
    pub ide_source: String,
    pub original_payload: Option<JsonValue>,
}

/// The mathematical form of an event context.
#[verifier::ext_equal]
pub struct EventContextV {
    pub file_path: Option<Seq<char>>,
    pub file_content: Option<Seq<char>>,
    pub edits: Option<Seq<FileEditV>>,
    pub tool_name: Option<Seq<char>>,
    pub tool_input: Option<JsonV>,
    pub tool_result: Option<JsonV>,
    pub command: Option<Seq<char>>,
    pub exit_code: Option<int>,
    pub user_prompt: Option<Seq<char>>,
    pub model_response: Option<Seq<char>>,
    pub ide_source: Seq<char>,
    pub original_payload: Option<JsonV>,
}

impl View for EventContext {
    type V = EventContextV;

    open spec fn view(&self) -> EventContextV {
        EventContextV {
            file_path: view_opt_str(self.file_path),
            file_content: view_opt_str(self.file_content),
            edits: match self.edits {
                Some(e) => Some(view_edits(e@)),
                None => None,
            },
            tool_name: view_opt_str(self.tool_name),
            tool_input: view_opt_json(self.tool_input),
            tool_result: view_opt_json(self.tool_result),
            command: view_opt_str(self.command),
            exit_code: match self.exit_code {
                Some(n) => Some(n as int),
                None => None,
            },
            user_prompt: view_opt_str(self.user_prompt),
            model_response: view_opt_str(self.model_response),
            ide_source: self.ide_source@,
            original_payload: view_opt_json(self.original_payload),
        }
    }
}

/// An empty context, tagged as coming from no particular source.
pub open spec fn spec_empty_context() -> EventContextV {
    EventContextV {
        file_path: None,
        file_content: None,
        edits: None,
        tool_name: None,
        tool_input: None,
        tool_result: None,
        command: None,
        exit_code: None,
        user_prompt: None,
        model_response: None,
        ide_source: Seq::empty(),
        original_payload: None,
    }
}

impl Default for EventContext {
    /// An empty context.
    fn default() -> (r: EventContext)
        ensures
            r@ == spec_empty_context(),
    {
        let r = EventContext {
            file_path: None,
            file_content: None,
            edits: None,
            tool_name: None,
            tool_input: None,
            tool_result: None,
            command: None,
            exit_code: None,
            user_prompt: None,
            model_response: None,
            ide_source: String::new(),
            original_payload: None,
        };
        assert(r@ =~= spec_empty_context());
        r
    }
}

/// One occurrence of an agent action, in canonical form. Created fresh by a
/// mapper from one raw payload and never mutated afterwards.
#[derive(Debug)]
pub struct ProjectLintEvent {
    pub event_type: EventType,
    pub session_id: Option<String>,
    pub timestamp: Option<String>,
    pub cwd: Option<String>,
    pub context: EventContext,
}

/// The mathematical form of an event.
#[verifier::ext_equal]
pub struct EventV {
    pub event_type: EventTypeV,
    pub session_id: Option<Seq<char>>,
    pub timestamp: Option<Seq<char>>,
    pub cwd: Option<Seq<char>>,
    pub context: EventContextV,
}

impl View for ProjectLintEvent {
    type V = EventV;

    open spec fn view(&self) -> EventV {
        EventV {
            event_type: self.event_type@,
            session_id: view_opt_str(self.session_id),
            timestamp: view_opt_str(self.timestamp),
            cwd: view_opt_str(self.cwd),
            context: self.context@,
        }
    }
}

/// The engine's verdict for one event.
#[derive(Debug, Clone, Copy, PartialEq, Eq, Structural)]
pub enum Decision {
    Allow,
    Deny,
    Ask,
    Warn,
}

/// The label under which a decision appears in the hook log: the variant's
/// own name.
pub open spec fn spec_decision_label(d: Decision) -> Seq<char> {
    match d {
        Decision::Allow => "Allow"@,
        Decision::Deny => "Deny"@,
        Decision::Ask => "Ask"@,
        Decision::Warn => "Warn"@,
    }
}

impl Decision {
    /// The label under which this decision appears in the hook log.
    pub fn label(&self) -> (r: String)
        ensures
            r@ == spec_decision_label(*self),
    {
        match self {
            Decision::Allow => str_to_string("Allow"),
            Decision::Deny => str_to_string("Deny"),
            Decision::Ask => str_to_string("Ask"),
            Decision::Warn => str_to_string("Warn"),
        }
    }
}

/// The engine's verdict for one event: a decision, an optional aggregated
/// message, and an optional rewritten tool input.
#[derive(Debug)]
pub struct HookResult {
    pub decision: Decision,
    pub message: Option<String>,
    pub modified_input: Option<JsonValue>,
}

/// The mathematical form of a verdict.
#[verifier::ext_equal]
pub struct HookResultV {
    pub decision: Decision,
    pub message: Option<Seq<char>>,
    pub modified_input: Option<JsonV>,
}

impl View for HookResult {
    type V = HookResultV;

    open spec fn view(&self) -> HookResultV {
        HookResultV {
            decision: self.decision,
            message: view_opt_str(self.message),
            modified_input: view_opt_json(self.modified_input),
        }
    }
}

/// The verdict that lets the action pass untouched.
pub open spec fn spec_allow_result() -> HookResultV {
    HookResultV { decision: Decision::Allow, message: None, modified_input: None }
}

impl Default for HookResult {
    /// The verdict that lets the action pass, with nothing attached.
    fn default() -> (r: HookResult)
        ensures
            r@ == spec_allow_result(),
    {
        HookResult { decision: Decision::Allow, message: None, modified_input: None }
    }
}

} // verus!

//! The rule engine: matches declarative, trigger-scoped rules against one
//! canonical event and aggregates the detected issues into a single verdict,
//! optionally with a rewritten tool command.

use vstd::prelude::*;

verus! {

use crate::config::Config;
use crate::config::ConfigV;
use crate::config::CustomRule;
use crate::config::CustomRuleV;
use crate::config::ModularRuleV;
use crate::config::RuleSeverity;
use crate::events::Decision;
use crate::events::EventTypeV;
use crate::events::EventV;
use crate::events::HookResult;
use crate::events::ProjectLintEvent;
use crate::events::spec_allow_result;
use crate::events::spec_type_name;
use crate::json::JsonV;
use crate::json::JsonValue;
use crate::json::jv_get;
use crate::json::jv_get_str;
use crate::json::jv_set;
use crate::json::parsed_json;
use crate::patterns::spec_matches_pattern;
use crate::text::seq_contains;
use crate::text::seq_starts_with;
use crate::text::spec_replace;
use crate::text::str_eq;
use crate::text::str_to_string;
use crate::text::append_str;

/// What the caller read from the working directory for the pnpm-workspace
/// check: the text of `package.json` when it exists and could be read, and
/// whether each of the pnpm marker files exists.
#[derive(Debug)]
pub struct DirProbe {
    pub package_json: Option<String>,
    pub has_workspace_yaml: bool,
    pub has_workspace_yml: bool,
    pub has_pnpm_lock: bool,
}

/// The mathematical form of a directory probe.
#[verifier::ext_equal]
pub struct DirProbeV {
    pub package_json: Option<Seq<char>>,
    pub has_workspace_yaml: bool,
    pub has_workspace_yml: bool,
    pub has_pnpm_lock: bool,
}

impl View for DirProbe {
    type V = DirProbeV;

    open spec fn view(&self) -> DirProbeV {
        DirProbeV {
            package_json: crate::events::view_opt_str(self.package_json),
            has_workspace_yaml: self.has_workspace_yaml,
            has_workspace_yml: self.has_workspace_yml,
            has_pnpm_lock: self.has_pnpm_lock,
        }
    }
}

impl DirProbe {
    /// A probe of a directory with no `package.json` and no pnpm markers.
    pub fn empty() -> (r: DirProbe)
        ensures
            r@.package_json is None,
            !r@.has_workspace_yaml,
            !r@.has_workspace_yml,
            !r@.has_pnpm_lock,
    {
        DirProbe {
            package_json: None,
            has_workspace_yaml: false,
            has_workspace_yml: false,
            has_pnpm_lock: false,
        }
    }
}

/// One rule having matched one event.
#[derive(Debug)]
pub struct DetectedIssue {
    pub name: String,
    pub message: String,
    pub severity: RuleSeverity,
}

/// The mathematical form of a detected issue.
#[verifier::ext_equal]
pub struct IssueV {
    pub name: Seq<char>,
    pub message: Seq<char>,
    pub severity: RuleSeverity,
}

impl View for DetectedIssue {
    type V = IssueV;

    open spec fn view(&self) -> IssueV {
        IssueV { name: self.name@, message: self.message@, severity: self.severity }
    }
}

/// The mathematical forms of a sequence of issues.
pub open spec fn view_issues(a: Seq<DetectedIssue>) -> Seq<IssueV>
    decreases a,
{
    if a.len() == 0 {
        Seq::empty()
    } else {
        seq![a[0]@] + view_issues(a.skip(1))
    }
}

/// The form of a sequence of issues, element by element.
pub proof fn lemma_view_issues(a: Seq<DetectedIssue>)
    ensures
        view_issues(a).len() == a.len(),
        forall|i: int| 0 <= i < a.len() ==> view_issues(a)[i] == a[i]@,
    decreases a.len(),
{
    if a.len() > 0 {
        lemma_view_issues(a.skip(1));
        assert forall|i: int| 0 <= i < a.len() implies view_issues(a)[i] == a[i]@ by {
            if i > 0 {
                assert(view_issues(a)[i] == view_issues(a.skip(1))[i - 1]);
                assert(a.skip(1)[i - 1] == a[i]);
            }
        }
    }
}

proof fn lemma_view_issues_push(a: Seq<DetectedIssue>, x: DetectedIssue)
    ensures
        view_issues(a.push(x)) == view_issues(a).push(x@),
    decreases a.len(),
{
    if a.len() == 0 {
        assert(a.push(x)[0] == x);
        assert(a.push(x).skip(1) =~= Seq::<DetectedIssue>::empty());
        assert(view_issues(Seq::<DetectedIssue>::empty()) == Seq::<IssueV>::empty());
        assert(view_issues(a) == Seq::<IssueV>::empty());
        assert(view_issues(a.push(x)) == seq![x@] + view_issues(
            Seq::<DetectedIssue>::empty(),
        ));
        assert(view_issues(a.push(x)) =~= view_issues(a).push(x@));
    } else {
        lemma_view_issues_push(a.skip(1), x);
        assert(a.push(x).skip(1) =~= a.skip(1).push(x));
        assert(a.push(x)[0] == a[0]);
        assert(view_issues(a.push(x)) =~= view_issues(a).push(x@));
    }
}

/// The source-reported action name carried in a raw payload, if any.
pub open spec fn payload_action_name(p: Option<JsonV>) -> Option<Seq<char>> {
    match p {
        Some(v) => jv_get_str(v, "agent_action_name"@),
        None => None,
    }
}

/// The source-reported hook event name carried in a raw payload, if any.
pub open spec fn payload_hook_name(p: Option<JsonV>) -> Option<Seq<char>> {
    match p {
        Some(v) => jv_get_str(v, "hook_event_name"@),
        None => None,
    }
}

/// Whether one trigger string matches the event: the literal `all`, the
/// canonical name of the event's kind, or a source-native action or hook
/// event name probed from the raw payload.
pub open spec fn trigger_matches(ev: EventV, t: Seq<char>) -> bool {
    ||| t == "all"@
    ||| t == spec_type_name(ev.event_type)
    ||| payload_action_name(ev.context.original_payload) == Some(t)
    ||| payload_hook_name(ev.context.original_payload) == Some(t)
}

/// Whether any trigger of the list matches the event. An empty list matches
/// no event at all: a rule without explicit triggers never fires.
pub open spec fn spec_matches_triggers(triggers: Seq<Seq<char>>, ev: EventV) -> bool {
    exists|i: int| 0 <= i < triggers.len() && #[trigger] trigger_matches(ev, triggers[i])
}

/// A rule with an empty trigger list matches no event whatsoever.
pub proof fn lemma_empty_triggers_match_nothing(ev: EventV)
    ensures
        !spec_matches_triggers(Seq::empty(), ev),
{
}

/// An event of an unknown kind is matched by a trigger list holding exactly
/// the name the source reported; for an event that carries no raw payload, a
/// trigger list holding one canonical event-kind name other than that name
/// does not match it.
pub proof fn lemma_unknown_event_trigger(ev: EventV, x: Seq<char>, t: Seq<char>)
    requires
        ev.event_type == EventTypeV::Unknown(x),
        ev.context.original_payload is None,
        crate::config::spec_is_valid_trigger(t),
        t != x,
    ensures
        spec_matches_triggers(seq![x], ev),
        !spec_matches_triggers(seq![t], ev),
{
    assert(trigger_matches(ev, seq![x][0]));
    assert(spec_type_name(ev.event_type) == x);
    reveal_strlit("all");
    reveal_strlit("session_start");
    reveal_strlit("session_end");
    reveal_strlit("pre_tool_use");
    reveal_strlit("post_tool_use");
    reveal_strlit("pre_read_code");
    reveal_strlit("post_read_code");
    reveal_strlit("pre_write_code");
    reveal_strlit("post_write_code");
    reveal_strlit("pre_run_command");
    reveal_strlit("post_run_command");
    reveal_strlit("pre_user_prompt");
    reveal_strlit("post_model_response");
    reveal_strlit("notification");
    reveal_strlit("permission_request");
    reveal_strlit("stop");
    reveal_strlit("subagent_stop");
    assert("all"@.len() == 3);
    assert("session_start"@.len() == 13);
    assert("session_end"@.len() == 11);
    assert("pre_tool_use"@.len() == 12);
    assert("post_tool_use"@.len() == 13);
    assert("pre_read_code"@.len() == 13);
    assert("post_read_code"@.len() == 14);
    assert("pre_write_code"@.len() == 14);
    assert("post_write_code"@.len() == 15);
    assert("pre_run_command"@.len() == 15);
    assert("post_run_command"@.len() == 16);
    assert("pre_user_prompt"@.len() == 15);
    assert("post_model_response"@.len() == 19);
    assert("notification"@.len() == 12);
    assert("permission_request"@.len() == 18);
    assert("stop"@.len() == 4);
    assert("subagent_stop"@.len() == 13);
    assert(t != "all"@);
    assert(!trigger_matches(ev, seq![t][0]));
}

/// The command string carried in a tool input: its `input` field, then its
/// `tool_input` field, then the generic `command` and `cmd` fields.
pub open spec fn spec_extract_command(ti: JsonV) -> Option<Seq<char>> {
    if jv_get_str(ti, "input"@) is Some {
        jv_get_str(ti, "input"@)
    } else if jv_get_str(ti, "tool_input"@) is Some {
        jv_get_str(ti, "tool_input"@)
    } else if jv_get_str(ti, "command"@) is Some {
        jv_get_str(ti, "command"@)
    } else {
        jv_get_str(ti, "cmd"@)
    }
}

/// Whether the probed directory is a pnpm workspace: `package.json` exists
/// and parses, and either its `packageManager` field names pnpm or one of the
/// pnpm marker files exists. No `package.json`, or one that does not parse,
/// conservatively means no workspace.
pub open spec fn spec_is_pnpm_workspace(p: DirProbeV) -> bool {
    match p.package_json {
        None => false,
        Some(content) => match parsed_json(content) {
            None => false,
            Some(v) => {
                ||| (match jv_get_str(v, "packageManager"@) {
                    Some(pm) => seq_starts_with(pm, "pnpm"@),
                    None => false,
                })
                ||| p.has_workspace_yaml
                ||| p.has_workspace_yml
                ||| p.has_pnpm_lock
            },
        },
    }
}

/// The message raised when an npm command is caught in a pnpm workspace.
pub open spec fn spec_pnpm_message(cmd: Seq<char>) -> Seq<char> {
    "🚫 This project uses pnpm (detected in package.json).\n\nFound: "@ + cmd
        + "\nSuggested: "@ + spec_replace(cmd, "npm "@, "pnpm "@)
        + "\n\nThe command has been automatically rewritten to use pnpm."@
}

/// The issue the pnpm enforcement rule raises for an event, if any: only
/// before a tool runs, only in a pnpm workspace, and only for a tool command
/// starting with `npm `.
pub open spec fn spec_pnpm_issue(rule: CustomRuleV, ev: EventV, probe: DirProbeV) -> Option<
    IssueV,
> {
    if !(ev.event_type is PreToolUse) {
        None
    } else if !spec_is_pnpm_workspace(probe) {
        None
    } else {
        match ev.context.tool_input {
            Some(ti) => match spec_extract_command(ti) {
                Some(cmd) => if seq_starts_with(cmd, "npm "@) {
                    Some(
                        IssueV {
                            name: rule.name,
                            message: spec_pnpm_message(cmd),
                            severity: rule.severity,
                        },
                    )
                } else {
                    None
                },
                None => None,
            },
            None => None,
        }
    }
}

/// The name that routes a rule to the pnpm enforcement path.
pub open spec fn pnpm_rule_name() -> Seq<char> {
    "pnpm-workspace-enforcer"@
}

/// Whether the rule's file pattern applies to the event: the event carries a
/// file path matching the pattern, or the pattern is the lone wildcard `*`.
pub open spec fn spec_rule_applies(rule: CustomRuleV, ev: EventV) -> bool {
    ||| (match ev.context.file_path {
        Some(p) => spec_matches_pattern(p, rule.pattern),
        None => false,
    })
    ||| rule.pattern == "*"@
}

/// The optional sequence as a sequence; absent is empty.
pub open spec fn opt_seq(o: Option<Seq<char>>) -> Seq<char> {
    match o {
        Some(s) => s,
        None => Seq::empty(),
    }
}

/// The issue one flat rule raises for one event, if any. A rule named
/// `pnpm-workspace-enforcer` goes down the pnpm enforcement path. A content
/// rule searches the event's prompt and file content for its pattern;
/// `must_contain` makes absence the violation, anything else makes presence
/// the violation. A plain pattern rule not marked `required` fires whenever
/// its pattern applies.
pub open spec fn spec_eval_custom_rule(
    rule: CustomRuleV,
    ev: EventV,
    probe: DirProbeV,
) -> Option<IssueV> {
    if !spec_rule_applies(rule, ev) {
        None
    } else if rule.name == pnpm_rule_name() {
        spec_pnpm_issue(rule, ev, probe)
    } else if rule.check_content {
        match rule.content_pattern {
            Some(pat) => {
                let content = opt_seq(ev.context.user_prompt) + opt_seq(
                    ev.context.file_content,
                );
                let present = seq_contains(content, pat);
                let violation = if rule.condition == Some("must_contain"@) {
                    !present
                } else {
                    present
                };
                if violation {
                    Some(
                        IssueV {
                            name: rule.name,
                            message: rule.message,
                            severity: rule.severity,
                        },
                    )
                } else {
                    None
                }
            },
            None => None,
        }
    } else if !rule.required {
        Some(IssueV { name: rule.name, message: rule.message, severity: rule.severity })
    } else {
        None
    }
}

/// The `must_contain` condition is an allow-list: for a content rule that
/// applies to the event and is not routed to the pnpm enforcement path,
/// absence of the content pattern from the event's prompt and file content is
/// the violation, and presence is none.
pub proof fn lemma_must_contain_is_allow_list(rule: CustomRuleV, ev: EventV, probe: DirProbeV)
    requires
        spec_rule_applies(rule, ev),
        rule.name != pnpm_rule_name(),
        rule.check_content,
        rule.content_pattern is Some,
        rule.condition == Some("must_contain"@),
    ensures
        !seq_contains(
            opt_seq(ev.context.user_prompt) + opt_seq(ev.context.file_content),
            rule.content_pattern->Some_0,
        ) ==> spec_eval_custom_rule(rule, ev, probe) == Some(
            IssueV { name: rule.name, message: rule.message, severity: rule.severity },
        ),
        seq_contains(
            opt_seq(ev.context.user_prompt) + opt_seq(ev.context.file_content),
            rule.content_pattern->Some_0,
        ) ==> spec_eval_custom_rule(rule, ev, probe) is None,
{
}

/// The issues the nested rules of one matched modular rule raise, in order.
pub open spec fn issues_of_nested(
    rules: Seq<CustomRuleV>,
    ev: EventV,
    probe: DirProbeV,
) -> Seq<IssueV>
    decreases rules,
{
    if rules.len() == 0 {
        Seq::empty()
    } else {
        (match spec_eval_custom_rule(rules[0], ev, probe) {
            Some(i) => seq![i],
            None => Seq::empty(),
        }) + issues_of_nested(rules.skip(1), ev, probe)
    }
}

/// The issues the modular rules raise, in declaration order: a disabled
/// bundle, or one whose triggers do not match, contributes nothing.
pub open spec fn issues_of_modular(
    rules: Seq<ModularRuleV>,
    ev: EventV,
    probe: DirProbeV,
) -> Seq<IssueV>
    decreases rules,
{
    if rules.len() == 0 {
        Seq::empty()
    } else {
        (if rules[0].enabled && spec_matches_triggers(rules[0].triggers, ev) {
            match rules[0].rules {
                Some(rs) => issues_of_nested(rs, ev, probe),
                None => Seq::empty(),
            }
        } else {
            Seq::empty()
        }) + issues_of_modular(rules.skip(1), ev, probe)
    }
}

/// The issues the top-level flat rules raise, in declaration order: each is
/// evaluated only when its own triggers match the event.
pub open spec fn issues_of_top(
    rules: Seq<CustomRuleV>,
    ev: EventV,
    probe: DirProbeV,
) -> Seq<IssueV>
    decreases rules,
{
    if rules.len() == 0 {
        Seq::empty()
    } else {
        (if spec_matches_triggers(rules[0].triggers, ev) {
            match spec_eval_custom_rule(rules[0], ev, probe) {
                Some(i) => seq![i],
                None => Seq::empty(),
            }
        } else {
            Seq::empty()
        }) + issues_of_top(rules.skip(1), ev, probe)
    }
}

/// Every issue the configuration raises for the event: the modular rules
/// first, in declaration order, then the top-level custom rules.
pub open spec fn spec_all_issues(cfg: ConfigV, ev: EventV, probe: DirProbeV) -> Seq<IssueV> {
    issues_of_modular(cfg.modular_rules, ev, probe) + issues_of_top(
        cfg.custom_rules,
        ev,
        probe,
    )
}

/// Whether any issue of the list is an error.
pub open spec fn spec_has_error(issues: Seq<IssueV>) -> bool {
    exists|i: int| 0 <= i < issues.len() && issues[i].severity == RuleSeverity::Error
}

/// The icon shown before an issue of the given severity.
pub open spec fn severity_icon(s: RuleSeverity) -> Seq<char> {
    match s {
        RuleSeverity::Error => "❌"@,
        RuleSeverity::Warning => "⚠️"@,
        RuleSeverity::Info => "ℹ️"@,
    }
}

/// One line of the aggregated message: icon, rule name, message.
pub open spec fn issue_line(i: IssueV) -> Seq<char> {
    severity_icon(i.severity) + " "@ + i.name + ": "@ + i.message + "\n"@
}

/// The issue lines, in order.
pub open spec fn issues_lines(issues: Seq<IssueV>) -> Seq<char>
    decreases issues,
{
    if issues.len() == 0 {
        Seq::empty()
    } else {
        issue_line(issues[0]) + issues_lines(issues.skip(1))
    }
}

/// The whole aggregated message: a header, then one line per issue in the
/// order the rules were declared.
pub open spec fn spec_issues_message(issues: Seq<IssueV>) -> Seq<char> {
    "Project Lint violations detected:\n"@ + issues_lines(issues)
}

/// The rewritten tool input, when the pnpm rule fired and the original tool
/// input carries its command in an `input` or `tool_input` field: that field
/// is overwritten with the command in which every `npm ` became `pnpm `.
pub open spec fn spec_modified_input(issues: Seq<IssueV>, ev: EventV) -> Option<JsonV> {
    if exists|k: int| 0 <= k < issues.len() && (#[trigger] issues[k].name) == pnpm_rule_name() {
        match ev.context.tool_input {
            Some(ti) => match spec_extract_command(ti) {
                Some(cmd) => if seq_starts_with(cmd, "npm "@) {
                    let rewritten = spec_replace(cmd, "npm "@, "pnpm "@);
                    if jv_get(ti, "input"@) is Some {
                        Some(jv_set(ti, "input"@, JsonV::Str(rewritten)))
                    } else if jv_get(ti, "tool_input"@) is Some {
                        Some(jv_set(ti, "tool_input"@, JsonV::Str(rewritten)))
                    } else {
                        None
                    }
                } else {
                    None
                },
                None => None,
            },
            None => None,
        }
    } else {
        None
    }
}

/// The verdict of the engine. With no issue the action passes untouched; any
/// error-severity issue denies it, and anything less warns, with the
/// aggregated message and, when the pnpm rule fired, the rewritten input.
pub open spec fn spec_evaluate(cfg: ConfigV, ev: EventV, probe: DirProbeV) -> crate::events::HookResultV {
    let issues = spec_all_issues(cfg, ev, probe);
    if issues.len() == 0 {
        spec_allow_result()
    } else {
        crate::events::HookResultV {
            decision: if spec_has_error(issues) {
                Decision::Deny
            } else {
                Decision::Warn
            },
            message: Some(spec_issues_message(issues)),
            modified_input: spec_modified_input(issues, ev),
        }
    }
}

/// Evaluates a configuration's rules against canonical events.
pub struct RuleEngine<'a> {
    pub config: &'a Config,
}

/// Whether any trigger of the list matches the event. An empty list never
/// matches: a rule without explicit triggers never fires.
pub fn event_matches_triggers(triggers: &Vec<String>, event: &ProjectLintEvent) -> (r: bool)
    ensures
        r == spec_matches_triggers(crate::text::view_strs(triggers@), event@),
{
    let ghost tv = crate::text::view_strs(triggers@);
        proof {
            crate::text::lemma_view_strs(triggers@);
        }
        let kind_name = event.event_type.canonical_name();
        let action_name: Option<String> = match &event.context.original_payload {
            Some(p) => p.get_str("agent_action_name"),
            None => None,
        };
        let hook_name: Option<String> = match &event.context.original_payload {
            Some(p) => p.get_str("hook_event_name"),
            None => None,
        };
        let mut i: usize = 0;
        while i < triggers.len()
            invariant
                i <= triggers@.len(),
                tv == crate::text::view_strs(triggers@),
                tv.len() == triggers@.len(),
                forall|j: int| 0 <= j < triggers@.len() ==> tv[j] == triggers@[j]@,
                kind_name@ == spec_type_name(event@.event_type),
                crate::events::view_opt_str(action_name) == payload_action_name(
                    event@.context.original_payload,
                ),
                crate::events::view_opt_str(hook_name) == payload_hook_name(
                    event@.context.original_payload,
                ),
                forall|j: int| 0 <= j < i ==> !#[trigger] trigger_matches(event@, tv[j]),
            decreases triggers.len() - i,
        {
            let t = triggers[i].as_str();
            let mut hit = str_eq(t, "all") || str_eq(t, kind_name.as_str());
            if !hit {
                hit = match &action_name {
                    Some(a) => str_eq(t, a.as_str()),
                    None => false,
                };
            }
            if !hit {
                hit = match &hook_name {
                    Some(h) => str_eq(t, h.as_str()),
                    None => false,
                };
            }
            assert(hit == trigger_matches(event@, tv[i as int]));
            if hit {
                return true;
            }
            i = i + 1;
        }
        false
}

impl<'a> RuleEngine<'a> {
    /// An engine over the given configuration.
    pub fn new(config: &'a Config) -> (r: RuleEngine<'a>)
        ensures
            r.config@ == config@,
    {
        RuleEngine { config }
    }

    /// Whether any trigger of the list matches the event. An empty list never
    /// matches: a rule without explicit triggers never fires.
    pub fn matches_triggers(&self, triggers: &Vec<String>, event: &ProjectLintEvent) -> (r:
        bool)
        ensures
            r == spec_matches_triggers(crate::text::view_strs(triggers@), event@),
    {
        event_matches_triggers(triggers, event)
    }

    /// The command string carried in a tool input, if any: the `input` field,
    /// then `tool_input`, then the generic `command` and `cmd` fields.
    pub fn extract_command_from_input(&self, tool_input: &JsonValue) -> (r: Option<String>)
        ensures
            crate::events::view_opt_str(r) == spec_extract_command(tool_input@),
    {
        if let Some(s) = tool_input.get_str("input") {
            return Some(s);
        }
        if let Some(s) = tool_input.get_str("tool_input") {
            return Some(s);
        }
        if let Some(s) = tool_input.get_str("command") {
            return Some(s);
        }
        tool_input.get_str("cmd")
    }

    /// Whether the probed directory is a pnpm workspace.
    pub fn is_pnpm_workspace(&self, probe: &DirProbe) -> (r: bool)
        ensures
            r == spec_is_pnpm_workspace(probe@),
    {
        match &probe.package_json {
            None => false,
            Some(content) => match crate::json::parse_json(content.as_str()) {
                None => false,
                Some(v) => {
                    let pm_is_pnpm = match v.get_str("packageManager") {
                        Some(pm) => crate::text::str_starts_with(pm.as_str(), "pnpm"),
                        None => false,
                    };
                    pm_is_pnpm || probe.has_workspace_yaml || probe.has_workspace_yml
                        || probe.has_pnpm_lock
                },
            },
        }
    }

    /// The issue the pnpm enforcement rule raises for the event, if any.
    pub fn evaluate_pnpm_rule(
        &self,
        rule: &CustomRule,
        event: &ProjectLintEvent,
        probe: &DirProbe,
    ) -> (r: Option<DetectedIssue>)
        ensures
            match r {
                Some(i) => spec_pnpm_issue(rule@, event@, probe@) == Some(i@),
                None => spec_pnpm_issue(rule@, event@, probe@) is None,
            },
    {
        if !event.event_type.is_pre_tool_use() {
            return None;
        }
        if !self.is_pnpm_workspace(probe) {
            return None;
        }
        let ti = match &event.context.tool_input {
            Some(ti) => ti,
            None => {
                return None;
            },
        };
        let cmd = match self.extract_command_from_input(ti) {
            Some(c) => c,
            None => {
                return None;
            },
        };
        if !crate::text::str_starts_with(cmd.as_str(), "npm ") {
            return None;
        }
        proof {
            reveal_strlit("npm ");
        }
        let rewritten = crate::text::str_replace(cmd.as_str(), "npm ", "pnpm ");
        let mut message = str_to_string(
            "🚫 This project uses pnpm (detected in package.json).\n\nFound: ",
        );
        append_str(&mut message, cmd.as_str());
        append_str(&mut message, "\nSuggested: ");
        append_str(&mut message, rewritten.as_str());
        append_str(
            &mut message,
            "\n\nThe command has been automatically rewritten to use pnpm.",
        );
        let issue = DetectedIssue {
            name: str_to_string(rule.name.as_str()),
            message,
            severity: rule.severity,
        };
        assert(issue@ =~= spec_pnpm_issue(rule@, event@, probe@)->Some_0);
        Some(issue)
    }

    /// The issue one flat rule raises for the event, if any.
    pub fn evaluate_custom_rule(
        &self,
        rule: &CustomRule,
        event: &ProjectLintEvent,
        probe: &DirProbe,
    ) -> (r: Option<DetectedIssue>)
        ensures
            match r {
                Some(i) => spec_eval_custom_rule(rule@, event@, probe@) == Some(i@),
                None => spec_eval_custom_rule(rule@, event@, probe@) is None,
            },
    {
        let mut applies = match &event.context.file_path {
            Some(p) => crate::patterns::matches_pattern(p.as_str(), rule.pattern.as_str()),
            None => false,
        };
        if !applies {
            applies = str_eq(rule.pattern.as_str(), "*");
        }
        if !applies {
            return None;
        }
        if str_eq(rule.name.as_str(), "pnpm-workspace-enforcer") {
            return self.evaluate_pnpm_rule(rule, event, probe);
        }
        if rule.check_content {
            let pat = match &rule.content_pattern {
                Some(p) => p,
                None => {
                    return None;
                },
            };
            let mut content = String::new();
            if let Some(prompt) = &event.context.user_prompt {
                append_str(&mut content, prompt.as_str());
            }
            if let Some(fc) = &event.context.file_content {
                append_str(&mut content, fc.as_str());
            }
            assert(content@ =~= opt_seq(event@.context.user_prompt) + opt_seq(
                event@.context.file_content,
            ));
            let present = crate::text::str_contains(content.as_str(), pat.as_str());
            let must_contain = match &rule.condition {
                Some(c) => str_eq(c.as_str(), "must_contain"),
                None => false,
            };
            let violation = if must_contain {
                !present
            } else {
                present
            };
            if violation {
                let issue = DetectedIssue {
                    name: str_to_string(rule.name.as_str()),
                    message: str_to_string(rule.message.as_str()),
                    severity: rule.severity,
                };
                assert(issue@ =~= spec_eval_custom_rule(rule@, event@, probe@)->Some_0);
                return Some(issue);
            }
            return None;
        }
        if !rule.required {
            let issue = DetectedIssue {
                name: str_to_string(rule.name.as_str()),
                message: str_to_string(rule.message.as_str()),
                severity: rule.severity,
            };
            assert(issue@ =~= spec_eval_custom_rule(rule@, event@, probe@)->Some_0);
            return Some(issue);
        }
        None
    }

    /// The engine's verdict for one event, against the directory probe the
    /// caller took for the event's working directory: every enabled modular
    /// rule whose triggers match contributes its nested rules' issues, every
    /// top-level rule whose triggers match contributes its own, and the
    /// issues aggregate into one decision and one message. Any error-severity
    /// issue denies; otherwise issues warn; no issues allow.
    pub fn evaluate_event(&self, event: &ProjectLintEvent, probe: &DirProbe) -> (r:
        HookResult)
        ensures
            r@ == spec_evaluate(self.config@, event@, probe@),
    {
        let ghost cfg = self.config@;
        let ghost modv = cfg.modular_rules;
        let ghost topv = cfg.custom_rules;
        proof {
            crate::config::lemma_view_mod_rules(self.config.modular_rules@);
            crate::config::lemma_view_rules(self.config.rules.custom_rules@);
        }
        let mut issues: Vec<DetectedIssue> = Vec::new();

        let mut i: usize = 0;
        assert(modv.skip(0) =~= modv);
        assert(view_issues(issues@) =~= Seq::<IssueV>::empty());
        while i < self.config.modular_rules.len()
            invariant
                i <= self.config.modular_rules@.len(),
                cfg == self.config@,
                modv == cfg.modular_rules,
                modv.len() == self.config.modular_rules@.len(),
                forall|j: int| 0 <= j < modv.len() ==> modv[j]
                    == self.config.modular_rules@[j]@,
                view_issues(issues@) + issues_of_modular(modv.skip(i as int), event@, probe@)
                    == issues_of_modular(modv, event@, probe@),
            decreases self.config.modular_rules.len() - i,
        {
            let ghost before = view_issues(issues@);
            let rule = &self.config.modular_rules[i];
            let ghost rv = modv[i as int];
            assert(modv.skip(i as int)[0] == rv);
            assert(modv.skip(i as int).skip(1) =~= modv.skip(i + 1));
            if rule.enabled && self.matches_triggers(&rule.triggers, event) {
                match &rule.rules {
                    Some(nested) => {
                        let ghost nv = rv.rules->Some_0;
                        proof {
                            crate::config::lemma_view_rules(nested@);
                        }
                        let mut k: usize = 0;
                        assert(nv.skip(0) =~= nv);
                        while k < nested.len()
                            invariant
                                k <= nested@.len(),
                                nv == crate::config::view_rules(nested@),
                                nv.len() == nested@.len(),
                                forall|j: int| 0 <= j < nv.len() ==> nv[j] == nested@[j]@,
                                view_issues(issues@) + issues_of_nested(
                                    nv.skip(k as int),
                                    event@,
                                    probe@,
                                ) == before + issues_of_nested(nv, event@, probe@),
                            decreases nested.len() - k,
                        {
                            assert(nv.skip(k as int)[0] == nv[k as int]);
                            assert(nv.skip(k as int).skip(1) =~= nv.skip(k + 1));
                            let ghost pre = issues@;
                            if let Some(issue) = self.evaluate_custom_rule(
                                &nested[k],
                                event,
                                probe,
                            ) {
                                proof {
                                    lemma_view_issues_push(pre, issue);
                                }
                                issues.push(issue);
                            }
                            proof {
                                assert(view_issues(issues@) + issues_of_nested(
                                    nv.skip(k + 1),
                                    event@,
                                    probe@,
                                ) =~= before + issues_of_nested(nv, event@, probe@));
                            }
                            k = k + 1;
                        }
                        assert(nv.skip(nested@.len() as int)
                            =~= Seq::<CustomRuleV>::empty());
                        assert(view_issues(issues@) =~= before + issues_of_nested(
                            nv,
                            event@,
                            probe@,
                        ));
                    },
                    None => {
                        assert(view_issues(issues@) =~= before + Seq::<IssueV>::empty());
                    },
                }
            } else {
                assert(view_issues(issues@) =~= before + Seq::<IssueV>::empty());
            }
            proof {
                assert(view_issues(issues@) + issues_of_modular(
                    modv.skip(i + 1),
                    event@,
                    probe@,
                ) =~= before + issues_of_modular(modv.skip(i as int), event@, probe@));
            }
            i = i + 1;
        }
        assert(modv.skip(self.config.modular_rules@.len() as int)
            =~= Seq::<ModularRuleV>::empty());
        let ghost after_mod = view_issues(issues@);
        assert(after_mod =~= issues_of_modular(modv, event@, probe@));

        let mut i2: usize = 0;
        assert(topv.skip(0) =~= topv);
        while i2 < self.config.rules.custom_rules.len()
            invariant
                i2 <= self.config.rules.custom_rules@.len(),
                cfg == self.config@,
                topv == cfg.custom_rules,
                topv.len() == self.config.rules.custom_rules@.len(),
                forall|j: int| 0 <= j < topv.len() ==> topv[j]
                    == self.config.rules.custom_rules@[j]@,
                after_mod == issues_of_modular(modv, event@, probe@),
                view_issues(issues@) + issues_of_top(topv.skip(i2 as int), event@, probe@)
                    == after_mod + issues_of_top(topv, event@, probe@),
            decreases self.config.rules.custom_rules.len() - i2,
        {
            assert(topv.skip(i2 as int)[0] == topv[i2 as int]);
            assert(topv.skip(i2 as int).skip(1) =~= topv.skip(i2 + 1));
            let rule = &self.config.rules.custom_rules[i2];
            let ghost pre = issues@;
            if self.matches_triggers(&rule.triggers, event) {
                if let Some(issue) = self.evaluate_custom_rule(rule, event, probe) {
                    proof {
                        lemma_view_issues_push(pre, issue);
                    }
                    issues.push(issue);
                }
            }
            proof {
                assert(view_issues(issues@) + issues_of_top(topv.skip(i2 + 1), event@, probe@)
                    =~= after_mod + issues_of_top(topv, event@, probe@));
            }
            i2 = i2 + 1;
        }
        assert(topv.skip(self.config.rules.custom_rules@.len() as int)
            =~= Seq::<CustomRuleV>::empty());
        let ghost all = spec_all_issues(cfg, event@, probe@);
        assert(view_issues(issues@) =~= all);

        if issues.len() == 0 {
            proof {
                lemma_view_issues(issues@);
            }
            let r = HookResult::default();
            assert(r@ =~= spec_evaluate(cfg, event@, probe@));
            return r;
        }

        proof {
            lemma_view_issues(issues@);
        }

        // Aggregate the message and look for an error and for the pnpm rule.
        let mut message = str_to_string("Project Lint violations detected:\n");
        let mut has_error = false;
        let mut has_pnpm = false;
        let mut k: usize = 0;
        assert(view_issues(issues@).skip(0) =~= view_issues(issues@));
        assert(message@ =~= "Project Lint violations detected:\n"@ + Seq::<char>::empty());
        while k < issues.len()
            invariant
                k <= issues@.len(),
                all == view_issues(issues@),
                all.len() == issues@.len(),
                forall|j: int| 0 <= j < all.len() ==> all[j] == issues@[j]@,
                message@ + issues_lines(all.skip(k as int))
                    == "Project Lint violations detected:\n"@ + issues_lines(all),
                has_error == exists|j: int|
                    0 <= j < k && all[j].severity == RuleSeverity::Error,
                has_pnpm == exists|j: int|
                    0 <= j < k && (#[trigger] all[j].name) == pnpm_rule_name(),
            decreases issues.len() - k,
        {
            assert(all.skip(k as int)[0] == all[k as int]);
            assert(all.skip(k as int).skip(1) =~= all.skip(k + 1));
            let issue = &issues[k];
            let icon: &str = match issue.severity {
                RuleSeverity::Error => "❌",
                RuleSeverity::Warning => "⚠️",
                RuleSeverity::Info => "ℹ️",
            };
            append_str(&mut message, icon);
            append_str(&mut message, " ");
            append_str(&mut message, issue.name.as_str());
            append_str(&mut message, ": ");
            append_str(&mut message, issue.message.as_str());
            append_str(&mut message, "\n");
            proof {
                assert(message@ + issues_lines(all.skip(k + 1))
                    =~= "Project Lint violations detected:\n"@ + issues_lines(all));
            }
            let is_error = match issue.severity {
                RuleSeverity::Error => true,
                _ => false,
            };
            if is_error {
                has_error = true;
            }
            let is_pnpm = str_eq(issue.name.as_str(), "pnpm-workspace-enforcer");
            if is_pnpm {
                has_pnpm = true;
            }
            k = k + 1;
            proof {
                if has_error {
                    assert(exists|j: int|
                        0 <= j < k && all[j].severity == RuleSeverity::Error);
                }
                if has_pnpm {
                    assert(exists|j: int|
                        0 <= j < k && (#[trigger] all[j].name) == pnpm_rule_name());
                }
            }
        }
        assert(all.skip(issues@.len() as int) =~= Seq::<IssueV>::empty());
        assert(message@ =~= spec_issues_message(all));
        assert(has_error == spec_has_error(all));

        // A rewritten command, when the pnpm rule fired.
        let mut modified_input: Option<JsonValue> = None;
        if has_pnpm {
            if let Some(ti) = &event.context.tool_input {
                if let Some(cmd) = self.extract_command_from_input(ti) {
                    if crate::text::str_starts_with(cmd.as_str(), "npm ") {
                        proof {
                            reveal_strlit("npm ");
                        }
                        let rewritten = crate::text::str_replace(
                            cmd.as_str(),
                            "npm ",
                            "pnpm ",
                        );
                        let has_input = match ti.get("input") {
                            Some(_) => true,
                            None => false,
                        };
                        if has_input {
                            modified_input = Some(
                                ti.with_str_field("input", rewritten.as_str()),
                            );
                        } else {
                            let has_tool_input = match ti.get("tool_input") {
                                Some(_) => true,
                                None => false,
                            };
                            if has_tool_input {
                                modified_input = Some(
                                    ti.with_str_field("tool_input", rewritten.as_str()),
                                );
                            }
                        }
                    }
                }
            }
        }
        assert(crate::events::view_opt_json(modified_input) == spec_modified_input(
            all,
            event@,
        ));

        let r = HookResult {
            decision: if has_error {
                Decision::Deny
            } else {
                Decision::Warn
            },
            message: Some(message),
            modified_input,
        };
        assert(r@ =~= spec_evaluate(cfg, event@, probe@));
        r
    }
}

} // verus!

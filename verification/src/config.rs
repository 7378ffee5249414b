//! The configuration model the rule engine consumes: flat custom rules,
//! named modular rules, profile definitions, and the legacy per-area
//! settings, with their defaults.

use vstd::prelude::*;

verus! {

use crate::text::str_to_string;
use crate::text::str_eq;
use crate::text::view_strs;

/// How severe a detected issue is.
#[derive(Debug, Clone, Copy, PartialEq, Eq, Structural)]
pub enum RuleSeverity {
    Error,
    Warning,
    Info,
}

/// A flat, trigger-scoped rule: a file pattern, an optional content
/// condition, and the message to raise.
#[derive(Debug)]
pub struct CustomRule {
    pub name: String,
    pub pattern: String,
    pub message: String,
    pub severity: RuleSeverity,
    pub check_content: bool,
    pub content_pattern: Option<String>,
    pub exception_pattern: Option<String>,
    pub condition: Option<String>,
    pub required: bool,
    pub required_if_path_exists: Option<String>,
    pub triggers: Vec<String>,
}

/// The mathematical form of a flat rule.
#[verifier::ext_equal]
pub struct CustomRuleV {
    pub name: Seq<char>,
    pub pattern: Seq<char>,
    pub message: Seq<char>,
    pub severity: RuleSeverity,
    pub check_content: bool,
    pub content_pattern: Option<Seq<char>>,
    pub exception_pattern: Option<Seq<char>>,
    pub condition: Option<Seq<char>>,
    pub required: bool,
    pub required_if_path_exists: Option<Seq<char>>,
    pub triggers: Seq<Seq<char>>,
}

impl View for CustomRule {
    type V = CustomRuleV;

    open spec fn view(&self) -> CustomRuleV {
        CustomRuleV {
            name: self.name@,
            pattern: self.pattern@,
            message: self.message@,
            severity: self.severity,
            check_content: self.check_content,
            content_pattern: crate::events::view_opt_str(self.content_pattern),
            exception_pattern: crate::events::view_opt_str(self.exception_pattern),
            condition: crate::events::view_opt_str(self.condition),
            required: self.required,
            required_if_path_exists: crate::events::view_opt_str(
                self.required_if_path_exists,
            ),
            triggers: view_strs(self.triggers@),
        }
    }
}

impl Default for CustomRule {
    /// An empty, warning-level rule with no triggers: it never fires.
    fn default() -> (r: CustomRule)
        ensures
            r@.name.len() == 0,
            r@.pattern.len() == 0,
            r@.message.len() == 0,
            r@.severity == RuleSeverity::Warning,
            !r@.check_content,
            r@.content_pattern is None,
            r@.exception_pattern is None,
            r@.condition is None,
            !r@.required,
            r@.required_if_path_exists is None,
            r@.triggers.len() == 0,
    {
        let r = CustomRule {
            name: String::new(),
            pattern: String::new(),
            message: String::new(),
            severity: RuleSeverity::Warning,
            check_content: false,
            content_pattern: None,
            exception_pattern: None,
            condition: None,
            required: false,
            required_if_path_exists: None,
            triggers: Vec::new(),
        };
        proof {
            crate::text::lemma_view_strs(r.triggers@);
        }
        r
    }
}

/// The mathematical forms of a sequence of flat rules.
pub open spec fn view_rules(a: Seq<CustomRule>) -> Seq<CustomRuleV>
    decreases a,
{
    if a.len() == 0 {
        Seq::empty()
    } else {
        seq![a[0]@] + view_rules(a.skip(1))
    }
}

/// The form of a sequence of rules is the sequence of the rules' forms.
pub proof fn lemma_view_rules(a: Seq<CustomRule>)
    ensures
        view_rules(a).len() == a.len(),
        forall|i: int| 0 <= i < a.len() ==> view_rules(a)[i] == a[i]@,
    decreases a.len(),
{
    if a.len() > 0 {
        lemma_view_rules(a.skip(1));
        assert forall|i: int| 0 <= i < a.len() implies view_rules(a)[i] == a[i]@ by {
            if i > 0 {
                assert(view_rules(a)[i] == view_rules(a.skip(1))[i - 1]);
                assert(a.skip(1)[i - 1] == a[i]);
            }
        }
    }
}

/// Git settings a modular rule may carry.
#[derive(Debug)]
pub struct GitRuleConfig {
    pub warn_wrong_branch: bool,
    pub allowed_branches: Vec<String>,
    pub forbidden_branches: Vec<String>,
}

/// Script-location settings a modular rule may carry.
#[derive(Debug)]
pub struct ScriptRuleConfig {
    pub preferred_directory: String,
    pub alternative_directories: Vec<String>,
    pub script_extensions: Vec<String>,
}

/// Extra conditions a modular rule may carry.
#[derive(Debug)]
pub struct RuleConditions {
    pub require_git_repo: Option<bool>,
    pub check_root_scripts: Option<bool>,
    pub check_scripts_in_src: Option<bool>,
}

/// A named, toggleable rule bundle: its own triggers, plus nested flat rules
/// and optional per-area sub-configurations.
#[derive(Debug)]
pub struct ModularRule {
    pub name: String,
    pub description: String,
    pub enabled: bool,
    pub severity: RuleSeverity,
    pub triggers: Vec<String>,
    pub git: Option<GitRuleConfig>,
    pub file_mappings: Option<Vec<(String, String)>>,
    pub ignored_patterns: Option<Vec<String>>,
    pub scripts: Option<ScriptRuleConfig>,
    pub conditions: Option<RuleConditions>,
    pub messages: Option<Vec<(String, String)>>,
    pub rules: Option<Vec<CustomRule>>,
}

/// The mathematical form of a modular rule, as the engine reads it: whether
/// it is enabled, its triggers, and its nested rules.
#[verifier::ext_equal]
pub struct ModularRuleV {
    pub name: Seq<char>,
    pub enabled: bool,
    pub severity: RuleSeverity,
    pub triggers: Seq<Seq<char>>,
    pub rules: Option<Seq<CustomRuleV>>,
}

impl View for ModularRule {
    type V = ModularRuleV;

    open spec fn view(&self) -> ModularRuleV {
        ModularRuleV {
            name: self.name@,
            enabled: self.enabled,
            severity: self.severity,
            triggers: view_strs(self.triggers@),
            rules: match self.rules {
                Some(rs) => Some(view_rules(rs@)),
                None => None,
            },
        }
    }
}

impl Default for ModularRule {
    /// An enabled, warning-level bundle with no triggers and no rules.
    fn default() -> (r: ModularRule)
        ensures
            r@.name.len() == 0,
            r@.enabled,
            r@.severity == RuleSeverity::Warning,
            r@.triggers.len() == 0,
            r@.rules is None,
    {
        let r = ModularRule {
            name: String::new(),
            description: String::new(),
            enabled: true,
            severity: RuleSeverity::Warning,
            triggers: Vec::new(),
            git: None,
            file_mappings: None,
            ignored_patterns: None,
            scripts: None,
            conditions: None,
            messages: None,
            rules: None,
        };
        proof {
            crate::text::lemma_view_strs(r.triggers@);
        }
        r
    }
}

/// The mathematical forms of a sequence of modular rules.
pub open spec fn view_mod_rules(a: Seq<ModularRule>) -> Seq<ModularRuleV>
    decreases a,
{
    if a.len() == 0 {
        Seq::empty()
    } else {
        seq![a[0]@] + view_mod_rules(a.skip(1))
    }
}

/// The form of a sequence of modular rules, element by element.
pub proof fn lemma_view_mod_rules(a: Seq<ModularRule>)
    ensures
        view_mod_rules(a).len() == a.len(),
        forall|i: int| 0 <= i < a.len() ==> view_mod_rules(a)[i] == a[i]@,
    decreases a.len(),
{
    if a.len() > 0 {
        lemma_view_mod_rules(a.skip(1));
        assert forall|i: int| 0 <= i < a.len() implies view_mod_rules(a)[i] == a[i]@ by {
            if i > 0 {
                assert(view_mod_rules(a)[i] == view_mod_rules(a.skip(1))[i - 1]);
                assert(a.skip(1)[i - 1] == a[i]);
            }
        }
    }
}

/// Legacy git settings.
#[derive(Debug)]
pub struct GitConfig {
    pub warn_wrong_branch: bool,
    pub allowed_branches: Vec<String>,
    pub forbidden_branches: Vec<String>,
}

impl Default for GitConfig {
    /// Warn on wrong branches; `main` and `master` allowed, `develop`
    /// forbidden.
    fn default() -> (r: GitConfig)
        ensures
            r.warn_wrong_branch,
            view_strs(r.allowed_branches@) =~= seq!["main"@, "master"@],
            view_strs(r.forbidden_branches@) =~= seq!["develop"@],
    {
        let r = GitConfig {
            warn_wrong_branch: true,
            allowed_branches: vec![str_to_string("main"), str_to_string("master")],
            forbidden_branches: vec![str_to_string("develop")],
        };
        proof {
            crate::text::lemma_view_strs(r.allowed_branches@);
            crate::text::lemma_view_strs(r.forbidden_branches@);
        }
        r
    }
}

/// Legacy file-placement settings.
#[derive(Debug)]
pub struct FilesConfig {
    pub auto_move: bool,
    pub type_mappings: Vec<(String, String)>,
    pub ignored_patterns: Vec<String>,
}

impl FilesConfig {
    /// The target directory mapped for a file pattern, if one is configured.
    pub fn mapping_for(&self, pattern: &str) -> (r: Option<String>)
        ensures
            match r {
                Some(d) => exists|i: int|
                    0 <= i < self.type_mappings@.len() && self.type_mappings@[i].0@
                        == pattern@ && self.type_mappings@[i].1@ == d@,
                None => forall|i: int|
                    0 <= i < self.type_mappings@.len() ==> self.type_mappings@[i].0@
                        != pattern@,
            },
    {
        let mut i: usize = 0;
        while i < self.type_mappings.len()
            invariant
                i <= self.type_mappings@.len(),
                forall|j: int| 0 <= j < i ==> self.type_mappings@[j].0@ != pattern@,
            decreases self.type_mappings.len() - i,
        {
            if str_eq(self.type_mappings[i].0.as_str(), pattern) {
                return Some(str_to_string(self.type_mappings[i].1.as_str()));
            }
            i = i + 1;
        }
        None
    }
}

impl Default for FilesConfig {
    /// Auto-move on; shell scripts map to `bin/`, the other script types to
    /// `scripts/`; build and VCS directories ignored.
    fn default() -> (r: FilesConfig)
        ensures
            r.auto_move,
            r.type_mappings@.len() == 4,
            r.type_mappings@[0].0@ == "*.sh"@ && r.type_mappings@[0].1@ == "bin/"@,
            r.type_mappings@[1].0@ == "*.py"@ && r.type_mappings@[1].1@ == "scripts/"@,
            r.type_mappings@[2].0@ == "*.js"@ && r.type_mappings@[2].1@ == "scripts/"@,
            r.type_mappings@[3].0@ == "*.ts"@ && r.type_mappings@[3].1@ == "scripts/"@,
            view_strs(r.ignored_patterns@) =~= seq!["node_modules/"@, ".git/"@, "target/"@],
    {
        let r = FilesConfig {
            auto_move: true,
            type_mappings: vec![
                (str_to_string("*.sh"), str_to_string("bin/")),
                (str_to_string("*.py"), str_to_string("scripts/")),
                (str_to_string("*.js"), str_to_string("scripts/")),
                (str_to_string("*.ts"), str_to_string("scripts/")),
            ],
            ignored_patterns: vec![
                str_to_string("node_modules/"),
                str_to_string(".git/"),
                str_to_string("target/"),
            ],
        };
        proof {
            crate::text::lemma_view_strs(r.ignored_patterns@);
        }
        r
    }
}

/// Legacy directory-structure settings.
#[derive(Debug)]
pub struct DirectoriesConfig {
    pub warn_scripts_location: bool,
    pub scripts_directory: String,
    pub structure: Vec<(String, Vec<String>)>,
}

impl Default for DirectoriesConfig {
    /// Warn on misplaced scripts; scripts belong in `bin`; sources, tests and
    /// docs have their usual homes.
    fn default() -> (r: DirectoriesConfig)
        ensures
            r.warn_scripts_location,
            r.scripts_directory@ == "bin"@,
            r.structure@.len() == 3,
            r.structure@[0].0@ == "src/"@,
            r.structure@[1].0@ == "tests/"@,
            r.structure@[2].0@ == "docs/"@,
    {
        DirectoriesConfig {
            warn_scripts_location: true,
            scripts_directory: str_to_string("bin"),
            structure: vec![
                (str_to_string("src/"), vec![str_to_string("*.rs"), str_to_string("*.py")]),
                (
                    str_to_string("tests/"),
                    vec![str_to_string("*_test.*"), str_to_string("*_spec.*")],
                ),
                (str_to_string("docs/"), vec![str_to_string("*.md"), str_to_string("*.rst")]),
            ],
        }
    }
}

/// The rule table: flat custom rules plus named check toggles.
#[derive(Debug)]
pub struct RulesConfig {
    pub custom_rules: Vec<CustomRule>,
    pub enabled_checks: Vec<String>,
    pub disabled_checks: Vec<String>,
}

impl Default for RulesConfig {
    /// No custom rules; the three built-in checks enabled.
    fn default() -> (r: RulesConfig)
        ensures
            r.custom_rules@.len() == 0,
            view_strs(r.enabled_checks@) =~= seq![
                "git_branch"@,
                "file_location"@,
                "directory_structure"@,
            ],
            r.disabled_checks@.len() == 0,
    {
        let r = RulesConfig {
            custom_rules: Vec::new(),
            enabled_checks: vec![
                str_to_string("git_branch"),
                str_to_string("file_location"),
                str_to_string("directory_structure"),
            ],
            disabled_checks: Vec::new(),
        };
        proof {
            crate::text::lemma_view_strs(r.enabled_checks@);
        }
        r
    }
}

/// Global engine settings.
#[derive(Debug)]
pub struct GlobalConfig {
    pub default_severity: String,
    pub output_format: String,
    pub enable_reactive_mode: bool,
    pub enable_auto_move: bool,
    pub enable_git_integration: bool,
    pub enable_file_watching: bool,
    pub max_file_size_mb: u64,
    pub scan_timeout_seconds: u64,
    pub debounce_ms: u64,
}

/// Which profiles exist and which applies when none matches.
#[derive(Debug)]
pub struct ProfileConfig {
    pub default: String,
    pub available: Vec<String>,
}

/// Which plugins load.
#[derive(Debug)]
pub struct PluginConfig {
    pub core_plugins: Vec<String>,
    pub optional_plugins: Vec<String>,
}

/// How the tool logs.
#[derive(Debug)]
pub struct LoggingConfig {
    pub level: String,
    pub format: String,
    pub include_timestamps: bool,
    pub include_rule_names: bool,
}

/// How findings are shown.
#[derive(Debug)]
pub struct OutputConfig {
    pub show_severity_icons: bool,
    pub show_rule_names: bool,
    pub show_file_paths: bool,
    pub group_by_severity: bool,
    pub max_issues_per_rule: u32,
}

/// The core settings bundle.
#[derive(Debug)]
pub struct CoreConfig {
    pub global: GlobalConfig,
    pub profiles: ProfileConfig,
    pub plugins: PluginConfig,
    pub logging: LoggingConfig,
    pub output: OutputConfig,
}

impl Default for CoreConfig {
    /// Warning-level, detailed output, everything enabled, the three stock
    /// profiles available.
    fn default() -> (r: CoreConfig)
        ensures
            r.global.default_severity@ == "warning"@,
            r.global.output_format@ == "detailed"@,
            r.global.enable_reactive_mode,
            r.global.enable_auto_move,
            r.global.enable_git_integration,
            r.global.enable_file_watching,
            r.global.max_file_size_mb == 10,
            r.global.scan_timeout_seconds == 30,
            r.global.debounce_ms == 1000,
            r.profiles.default@ == "general"@,
            view_strs(r.profiles.available@) =~= seq!["general"@, "web"@, "devops"@],
            r.logging.level@ == "info"@,
            r.output.max_issues_per_rule == 10,
    {
        let r = CoreConfig {
            global: GlobalConfig {
                default_severity: str_to_string("warning"),
                output_format: str_to_string("detailed"),
                enable_reactive_mode: true,
                enable_auto_move: true,
                enable_git_integration: true,
                enable_file_watching: true,
                max_file_size_mb: 10,
                scan_timeout_seconds: 30,
                debounce_ms: 1000,
            },
            profiles: ProfileConfig {
                default: str_to_string("general"),
                available: vec![
                    str_to_string("general"),
                    str_to_string("web"),
                    str_to_string("devops"),
                ],
            },
            plugins: PluginConfig {
                core_plugins: vec![str_to_string("git-hooks"), str_to_string("move-watcher")],
                optional_plugins: vec![
                    str_to_string("ai-nudge"),
                    str_to_string("format-checker"),
                ],
            },
            logging: LoggingConfig {
                level: str_to_string("info"),
                format: str_to_string("colored"),
                include_timestamps: true,
                include_rule_names: true,
            },
            output: OutputConfig {
                show_severity_icons: true,
                show_rule_names: true,
                show_file_paths: true,
                group_by_severity: true,
                max_issues_per_rule: 10,
            },
        };
        proof {
            crate::text::lemma_view_strs(r.profiles.available@);
        }
        r
    }
}

/// Naming and provenance of a profile.
#[derive(Debug)]
pub struct ProfileMetadata {
    pub name: String,
    pub version: String,
    pub scope: String,
    pub updated: String,
    pub description: String,
}

/// Where a content trigger looks: only in a fixed-size header window of each
/// candidate file, or anywhere in it.
#[derive(Debug, Clone, Copy, PartialEq, Eq, Structural)]
pub enum MatchPosition {
    Header,
    Any,
}

/// A content-based activation trigger: glob patterns select candidate files,
/// and any of the match strings occurring in a file activates the profile.
#[derive(Debug)]
pub struct ContentTrigger {
    pub globs: Vec<String>,
    pub matches: Vec<String>,
    pub position: MatchPosition,
}

/// The independent mechanisms that can activate a profile.
#[derive(Debug)]
pub struct ProfileActivation {
    pub triggers: Vec<String>,
    pub indicators: Vec<String>,
    pub paths: Vec<String>,
    pub globs: Vec<String>,
    pub content: Vec<ContentTrigger>,
    pub extensions: Vec<String>,
    pub branches: Vec<String>,
}

/// What a profile turns on.
#[derive(Debug)]
pub struct ProfileEnable {
    pub domains: Vec<String>,
    pub plugins: Vec<String>,
}

/// Web-project settings a profile may carry.
#[derive(Debug, Clone, Copy)]
pub struct WebSpecificConfig {
    pub check_html_semantics: bool,
    pub validate_css_properties: bool,
    pub lint_javascript: bool,
    pub check_accessibility: bool,
    pub optimize_images: bool,
    pub check_seo_meta: bool,
}

/// Operations-project settings a profile may carry.
#[derive(Debug, Clone, Copy)]
pub struct DevOpsSpecificConfig {
    pub check_secrets: bool,
    pub validate_yaml: bool,
    pub check_docker_best_practices: bool,
    pub validate_terraform: bool,
    pub check_kubernetes_manifests: bool,
    pub scan_for_hardcoded_secrets: bool,
    pub check_ssl_certificates: bool,
}

/// Directory expectations a profile may carry.
#[derive(Debug)]
pub struct ProfileStructure {
    pub expected_dirs: Vec<String>,
    pub forbidden_dirs: Vec<String>,
}

/// Naming and provenance of a plugin.
#[derive(Debug)]
pub struct PluginMetadata {
    pub name: String,
    pub version: String,
    pub scope: String,
    pub updated: String,
    pub description: String,
}

/// When a plugin runs.
#[derive(Debug)]
pub struct PluginTrigger {
    pub on: Vec<String>,
}

/// What a plugin runs.
#[derive(Debug)]
pub struct PluginExecute {
    pub command: String,
    pub condition: String,
    pub timeout_seconds: u64,
    pub fail_on_errors: bool,
}

/// Settings a plugin may carry for one git hook.
#[derive(Debug)]
pub struct GitHookConfig {
    pub enabled: bool,
    pub check_staged_files: Option<bool>,
    pub check_unstaged_files: Option<bool>,
    pub auto_fix: Option<bool>,
    pub block_on_errors: Option<bool>,
    pub check_format: Option<bool>,
    pub require_ticket: Option<bool>,
    pub max_length: Option<u32>,
}

/// Settings for moving misplaced files automatically.
#[derive(Debug, Clone, Copy, PartialEq, Eq, Structural)]
pub struct AutoMoveConfig {
    pub enabled: bool,
    pub move_on_create: bool,
    pub move_on_modify: bool,
    pub preserve_git_history: bool,
    pub create_backup: bool,
    pub dry_run_first: bool,
}

/// How files are recognized.
#[derive(Debug, Clone, Copy, PartialEq, Eq, Structural)]
pub struct FileDetectionConfig {
    pub use_extension: bool,
    pub use_content_analysis: bool,
    pub use_magic_numbers: bool,
    pub check_file_signatures: bool,
}

/// Safety limits for destructive plugin actions.
#[derive(Debug, Clone, Copy, PartialEq, Eq, Structural)]
pub struct SafetyConfig {
    pub max_file_size_mb: u64,
    pub backup_enabled: bool,
    pub undo_enabled: bool,
    pub confirmation_required: bool,
    pub log_all_moves: bool,
}

/// Which kinds of suggestions a plugin may raise.
#[derive(Debug, Clone, Copy, PartialEq, Eq, Structural)]
pub struct SuggestionTypes {
    pub file_organization: bool,
    pub naming_conventions: bool,
    pub code_quality: bool,
    pub security_best_practices: bool,
    pub performance_optimization: bool,
    pub documentation_suggestions: bool,
}

/// Which context a plugin may gather.
#[derive(Debug, Clone, Copy, PartialEq, Eq, Structural)]
pub struct ContextGathering {
    pub file_content: bool,
    pub project_structure: bool,
    pub git_history: bool,
    pub similar_files: bool,
    pub project_type: bool,
    pub team_patterns: bool,
}

/// What a plugin may learn from its use.
#[derive(Debug, Clone, Copy, PartialEq, Eq, Structural)]
pub struct LearningConfig {
    pub learn_from_acceptance: bool,
    pub learn_from_rejection: bool,
    pub adapt_to_project_patterns: bool,
    pub remember_user_preferences: bool,
}

/// A loaded plugin definition: when it runs, what it runs, and its optional
/// per-area settings.
#[derive(Debug)]
pub struct Plugin {
    pub metadata: PluginMetadata,
    pub trigger: PluginTrigger,
    pub execute: PluginExecute,
    pub pre_commit: Option<GitHookConfig>,
    pub pre_push: Option<GitHookConfig>,
    pub commit_msg: Option<GitHookConfig>,
    pub conditions: Option<Vec<(String, String)>>,
    pub actions: Option<Vec<(String, String)>>,
    pub messages: Option<Vec<(String, String)>>,
    pub auto_move: Option<AutoMoveConfig>,
    pub file_detection: Option<FileDetectionConfig>,
    pub move_rules: Option<Vec<(String, String)>>,
    pub safety: Option<SafetyConfig>,
    pub suggestion_types: Option<SuggestionTypes>,
    pub context_gathering: Option<ContextGathering>,
    pub learning: Option<LearningConfig>,
}

/// A named, versioned bundle of activation conditions and domain-specific
/// settings.
#[derive(Debug)]
pub struct Profile {
    pub metadata: ProfileMetadata,
    pub activation: ProfileActivation,
    pub enable: ProfileEnable,
    pub web_specific: Option<WebSpecificConfig>,
    pub devops_specific: Option<DevOpsSpecificConfig>,
    pub structure: Option<ProfileStructure>,
}

/// The full configuration the engine consumes. Loading it from disk is the
/// caller's business; the engine only reads it.
#[derive(Debug)]
pub struct Config {
    pub git: GitConfig,
    pub files: FilesConfig,
    pub directories: DirectoriesConfig,
    pub rules: RulesConfig,
    pub modular_rules: Vec<ModularRule>,
    pub active_profiles: Vec<Profile>,
    pub active_plugins: Vec<Plugin>,
    pub core_config: CoreConfig,
}

/// The mathematical form of a configuration, as the engine reads it: the
/// modular rules in declaration order, then the flat custom rules.
#[verifier::ext_equal]
pub struct ConfigV {
    pub modular_rules: Seq<ModularRuleV>,
    pub custom_rules: Seq<CustomRuleV>,
}

impl View for Config {
    type V = ConfigV;

    open spec fn view(&self) -> ConfigV {
        ConfigV {
            modular_rules: view_mod_rules(self.modular_rules@),
            custom_rules: view_rules(self.rules.custom_rules@),
        }
    }
}

impl Default for Config {
    /// The stock configuration: legacy defaults, no modular rules, no active
    /// profiles.
    fn default() -> (r: Config)
        ensures
            r@.modular_rules.len() == 0,
            r@.custom_rules.len() == 0,
            r.git.warn_wrong_branch,
            r.files.auto_move,
            r.directories.warn_scripts_location,
            r.directories.scripts_directory@ == "bin"@,
    {
        let r = Config {
            git: GitConfig::default(),
            files: FilesConfig::default(),
            directories: DirectoriesConfig::default(),
            rules: RulesConfig::default(),
            modular_rules: Vec::new(),
            active_profiles: Vec::new(),
            active_plugins: Vec::new(),
            core_config: CoreConfig::default(),
        };
        r
    }
}

/// Whether `t` is the canonical name of one of the closed event kinds.
pub open spec fn spec_is_valid_trigger(t: Seq<char>) -> bool {
    ||| t == "session_start"@
    ||| t == "session_end"@
    ||| t == "pre_tool_use"@
    ||| t == "post_tool_use"@
    ||| t == "pre_read_code"@
    ||| t == "post_read_code"@
    ||| t == "pre_write_code"@
    ||| t == "post_write_code"@
    ||| t == "pre_run_command"@
    ||| t == "post_run_command"@
    ||| t == "pre_user_prompt"@
    ||| t == "post_model_response"@
    ||| t == "notification"@
    ||| t == "permission_request"@
    ||| t == "stop"@
    ||| t == "subagent_stop"@
}

/// Whether `t` names one of the closed canonical event kinds.
pub fn is_valid_trigger(t: &str) -> (r: bool)
    ensures
        r == spec_is_valid_trigger(t@),
{
    str_eq(t, "session_start") || str_eq(t, "session_end") || str_eq(t, "pre_tool_use")
        || str_eq(t, "post_tool_use") || str_eq(t, "pre_read_code") || str_eq(
        t,
        "post_read_code",
    ) || str_eq(t, "pre_write_code") || str_eq(t, "post_write_code") || str_eq(
        t,
        "pre_run_command",
    ) || str_eq(t, "post_run_command") || str_eq(t, "pre_user_prompt") || str_eq(
        t,
        "post_model_response",
    ) || str_eq(t, "notification") || str_eq(t, "permission_request") || str_eq(t, "stop")
        || str_eq(t, "subagent_stop")
}

/// The severity named by `s`, if any: `error`, `warning` or `info`.
pub open spec fn spec_parse_severity(s: Seq<char>) -> Option<RuleSeverity> {
    if s == "error"@ {
        Some(RuleSeverity::Error)
    } else if s == "warning"@ {
        Some(RuleSeverity::Warning)
    } else if s == "info"@ {
        Some(RuleSeverity::Info)
    } else {
        None
    }
}

/// Parses a severity name; an unknown name is an error naming itself.
pub fn parse_severity(s: &str) -> (r: Result<RuleSeverity, String>)
    ensures
        match r {
            Ok(sev) => spec_parse_severity(s@) == Some(sev),
            Err(m) => spec_parse_severity(s@) is None && m@ == "unknown severity level: "@
                + s@,
        },
{
    if str_eq(s, "error") {
        Ok(RuleSeverity::Error)
    } else if str_eq(s, "warning") {
        Ok(RuleSeverity::Warning)
    } else if str_eq(s, "info") {
        Ok(RuleSeverity::Info)
    } else {
        let mut m = str_to_string("unknown severity level: ");
        crate::text::append_str(&mut m, s);
        Err(m)
    }
}

} // verus!

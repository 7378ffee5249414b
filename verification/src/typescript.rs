//! TypeScript-specific lint rules: the rule tables for extensions, path
//! aliases, module system, code style, package structure, lint configuration
//! and test files, and a scanner that runs them against a file's text.

use vstd::prelude::*;

verus! {

use crate::detection::DetectionIssue;
use crate::detection::FunctionCallDetector;
use crate::detection::FunctionCallRule;
use crate::detection::FunctionCallRuleV;
use crate::detection::PatternDetector;
use crate::detection::PatternRule;
use crate::detection::PatternRuleV;
use crate::detection::view_fn_rules;
use crate::detection::view_pattern_rules;
use crate::text::str_ends_with;
use crate::text::str_eq;
use crate::text::str_to_string;

fn pattern_rule(
    name: &str,
    pattern: &str,
    severity: &str,
    message_template: &str,
    fix_template: Option<&str>,
    case_sensitive: bool,
) -> (r: PatternRule)
    ensures
        r@ == (PatternRuleV {
            name: name@,
            pattern: pattern@,
            severity: severity@,
            message_template: message_template@,
            fix_template: match fix_template {
                Some(f) => Some(f@),
                None => None,
            },
            case_sensitive,
        }),
{
    let r = PatternRule {
        name: str_to_string(name),
        pattern: str_to_string(pattern),
        severity: str_to_string(severity),
        message_template: str_to_string(message_template),
        fix_template: match fix_template {
            Some(f) => Some(str_to_string(f)),
            None => None,
        },
        case_sensitive,
    };
    assert(r@ =~= PatternRuleV {
        name: name@,
        pattern: pattern@,
        severity: severity@,
        message_template: message_template@,
        fix_template: match fix_template {
            Some(f) => Some(f@),
            None => None,
        },
        case_sensitive,
    });
    r
}

/// The expected rule against ambiguous TypeScript file extensions.
pub open spec fn ts_ext_rule() -> PatternRuleV {
    PatternRuleV {
        name: "ambiguous_ts_extension"@,
        pattern: "\\.ts$"@,
        severity: "high"@,
        message_template: "❌ Ambiguous TypeScript extension '.ts' detected. Use '.mts' (ESM), '.cts' (CommonJS), or '.test.ts' for tests."@,
        fix_template: None,
        case_sensitive: true,
    }
}

/// The expected rule against ambiguous JavaScript file extensions.
pub open spec fn js_ext_rule() -> PatternRuleV {
    PatternRuleV {
        name: "ambiguous_js_extension"@,
        pattern: "\\.js$"@,
        severity: "high"@,
        message_template: "❌ Ambiguous JavaScript extension '.js' detected. Use '.mjs' (ESM), '.cjs' (CommonJS), or '.config.js' for config."@,
        fix_template: None,
        case_sensitive: true,
    }
}

/// The TypeScript rule tables.
pub struct TypeScriptRuleSet;

impl TypeScriptRuleSet {
    /// The rules against ambiguous `.ts` and `.js` extensions.
    pub fn file_extension_rules() -> (r: Vec<PatternRule>)
        ensures
            view_pattern_rules(r@) == seq![ts_ext_rule(), js_ext_rule()],
    {
        let r = vec![
            pattern_rule(
                "ambiguous_ts_extension",
                "\\.ts$",
                "high",
                "❌ Ambiguous TypeScript extension '.ts' detected. Use '.mts' (ESM), '.cts' (CommonJS), or '.test.ts' for tests.",
                None,
                true,
            ),
            pattern_rule(
                "ambiguous_js_extension",
                "\\.js$",
                "high",
                "❌ Ambiguous JavaScript extension '.js' detected. Use '.mjs' (ESM), '.cjs' (CommonJS), or '.config.js' for config.",
                None,
                true,
            ),
        ];
        proof {
            crate::detection::lemma_view_pattern_rules(r@);
            assert(view_pattern_rules(r@) =~= seq![ts_ext_rule(), js_ext_rule()]);
        }
        r
    }

    /// The rules against the ambiguous `@/*` path alias, and against aliases
    /// that collide with scoped package names.
    pub fn path_alias_rules() -> (r: Vec<PatternRule>)
        ensures
            view_pattern_rules(r@).len() == 2,
            view_pattern_rules(r@)[0].name == "ambiguous_path_alias"@,
            view_pattern_rules(r@)[0].severity == "high"@,
            view_pattern_rules(r@)[1].name == "conflicting_scoped_package"@,
            view_pattern_rules(r@)[1].severity == "medium"@,
    {
        let r = vec![
            pattern_rule(
                "ambiguous_path_alias",
                "\"@/\\*\":\\s*\\[\"\\./src/\\*\"\\]",
                "high",
                "❌ Ambiguous path alias '@/*' detected. Use explicit category aliases like '@/core/*', '@/features/*', '@/components/*', '@/utils/*', '@/lib/*', '@/types/*'.",
                None,
                false,
            ),
            pattern_rule(
                "conflicting_scoped_package",
                "\"@/\\*\":\\s*\\[",
                "medium",
                "⚠️  Path alias '@/*' may conflict with npm scoped packages like '@radix-ui/*'. Use explicit category-based aliases instead.",
                None,
                false,
            ),
        ];
        proof {
            crate::detection::lemma_view_pattern_rules(r@);
        }
        r
    }

    /// The rule against `require()` in module files.
    pub fn module_system_rules() -> (r: Vec<FunctionCallRule>)
        ensures
            view_fn_rules(r@).len() == 1,
            view_fn_rules(r@)[0].name == "require_in_esm"@,
            view_fn_rules(r@)[0].function_names == seq!["require"@],
            view_fn_rules(r@)[0].severity == "high"@,
            view_fn_rules(r@)[0].fix_template == Some("import"@),
    {
        let r = vec![
            FunctionCallRule {
                name: str_to_string("require_in_esm"),
                function_names: vec![str_to_string("require")],
                severity: str_to_string("high"),
                message_template: str_to_string(
                    "❌ 'require()' detected at {file}:{line}. Use 'import' statements in ESM files (.mts, .tsx).",
                ),
                fix_template: Some(str_to_string("import")),
            },
        ];
        proof {
            crate::detection::lemma_view_fn_rules(r@);
            crate::text::lemma_view_strs(r@[0].function_names@);
            assert(view_fn_rules(r@)[0].function_names =~= seq!["require"@]);
        }
        r
    }

    /// The code-style rules: single quotes, missing semicolons, `interface`
    /// where `type` is preferred, and imports without `import type`.
    pub fn code_style_rules() -> (r: Vec<PatternRule>)
        ensures
            view_pattern_rules(r@).len() == 4,
            view_pattern_rules(r@)[0].name == "single_quotes"@,
            view_pattern_rules(r@)[1].name == "missing_semicolon"@,
            view_pattern_rules(r@)[2].name == "interface_instead_of_type"@,
            view_pattern_rules(r@)[3].name == "import_without_type"@,
    {
        let r = vec![
            pattern_rule(
                "single_quotes",
                "'[^']*'",
                "medium",
                "⚠️  Single quotes detected: {matched}. Use double quotes (\") instead.",
                Some("\"replacement\""),
                true,
            ),
            pattern_rule(
                "missing_semicolon",
                "(const|let|var|function|return|import|export)\\s+[^;]*[^;{}\\s]$",
                "medium",
                "⚠️  Missing semicolon at end of statement: {matched}",
                Some("{matched};"),
                false,
            ),
            pattern_rule(
                "interface_instead_of_type",
                "\\binterface\\s+\\w+",
                "low",
                "ℹ️  'interface' detected: {matched}. Prefer 'type' for type definitions.",
                Some("type"),
                false,
            ),
            pattern_rule(
                "import_without_type",
                "import\\s+\\{[^}]*\\}\\s+from",
                "low",
                "ℹ️  Import statement detected: {matched}. Use 'import type' for type-only imports.",
                Some("import type"),
                false,
            ),
        ];
        proof {
            crate::detection::lemma_view_pattern_rules(r@);
        }
        r
    }

    /// The package-structure rules: a readme that should carry usage, and
    /// exported items that should carry documentation.
    pub fn package_structure_rules() -> (r: Vec<PatternRule>)
        ensures
            view_pattern_rules(r@).len() == 2,
            view_pattern_rules(r@)[0].name == "missing_readme"@,
            view_pattern_rules(r@)[1].name == "missing_jsdoc"@,
    {
        let r = vec![
            pattern_rule(
                "missing_readme",
                "README\\.md",
                "info",
                "ℹ️  README.md found. Ensure it contains usage and examples.",
                None,
                false,
            ),
            pattern_rule(
                "missing_jsdoc",
                "export\\s+(function|const|class|interface|type)\\s+\\w+",
                "low",
                "ℹ️  Public API detected: {matched}. Add JSDoc comments.",
                None,
                false,
            ),
        ];
        proof {
            crate::detection::lemma_view_pattern_rules(r@);
        }
        r
    }

    /// The lint-configuration rules: the configuration file itself, and
    /// direct environment access.
    pub fn eslint_config_rules() -> (r: Vec<PatternRule>)
        ensures
            view_pattern_rules(r@).len() == 2,
            view_pattern_rules(r@)[0].name == "missing_eslint_config"@,
            view_pattern_rules(r@)[1].name == "direct_process_env"@,
    {
        let r = vec![
            pattern_rule(
                "missing_eslint_config",
                "eslint\\.config\\.(mts|ts|js)",
                "info",
                "ℹ️  ESLint config file found: {matched}. Ensure it uses @job-aide/tools-lint-eslint-config.",
                None,
                false,
            ),
            pattern_rule(
                "direct_process_env",
                "process\\.env\\.\\w+",
                "medium",
                "⚠️  Direct process.env access detected: {matched}. Use config abstraction instead.",
                Some("config.get()"),
                true,
            ),
        ];
        proof {
            crate::detection::lemma_view_pattern_rules(r@);
        }
        r
    }

    /// The test-file rules: the ambiguous `.test.ts` extension, and the test
    /// framework calls.
    pub fn test_file_rules() -> (r: Vec<PatternRule>)
        ensures
            view_pattern_rules(r@).len() == 2,
            view_pattern_rules(r@)[0].name == "wrong_test_extension"@,
            view_pattern_rules(r@)[1].name == "vitest_import"@,
    {
        let r = vec![
            pattern_rule(
                "wrong_test_extension",
                "\\.test\\.ts$",
                "high",
                "❌ Test file with ambiguous extension '.test.ts' detected. Use '.test.mts' for ESM test files.",
                Some(".test.mts"),
                true,
            ),
            pattern_rule(
                "vitest_import",
                "(describe|it|test|expect)\\s*\\(",
                "info",
                "ℹ️  Test framework detected: {matched}. Ensure Vitest is configured.",
                None,
                false,
            ),
        ];
        proof {
            crate::detection::lemma_view_pattern_rules(r@);
        }
        r
    }
}

/// The seven detectors of the TypeScript rules, compiled.
pub struct TypeScriptScanner {
    pub file_extension_detector: PatternDetector,
    pub path_alias_detector: PatternDetector,
    pub module_system_detector: FunctionCallDetector,
    pub code_style_detector: PatternDetector,
    pub package_structure_detector: PatternDetector,
    pub eslint_config_detector: PatternDetector,
    pub test_file_detector: PatternDetector,
}

impl TypeScriptScanner {
    /// Compiles the seven rule tables; a rule table whose pattern the regex
    /// crate rejects fails the construction with that pattern named. A scanner
    /// that comes back holds exactly the seven tables, in their stated order.
    pub fn new() -> (r: Result<TypeScriptScanner, String>)
        ensures
            r matches Ok(s) ==> {
                &&& crate::detection::view_pattern_rules_of(
                    s.file_extension_detector.patterns@,
                ) == seq![ts_ext_rule(), js_ext_rule()]
                &&& crate::detection::view_pattern_rules_of(
                    s.path_alias_detector.patterns@,
                ).len() == 2
                &&& crate::detection::view_pattern_rules_of(
                    s.path_alias_detector.patterns@,
                )[0].name == "ambiguous_path_alias"@
                &&& crate::detection::view_pattern_rules_of(
                    s.path_alias_detector.patterns@,
                )[1].name == "conflicting_scoped_package"@
                &&& view_fn_rules(s.module_system_detector.rules@).len() == 1
                &&& view_fn_rules(s.module_system_detector.rules@)[0].name
                    == "require_in_esm"@
                &&& crate::detection::view_pattern_rules_of(
                    s.code_style_detector.patterns@,
                ).len() == 4
                &&& crate::detection::view_pattern_rules_of(
                    s.code_style_detector.patterns@,
                )[0].name == "single_quotes"@
                &&& crate::detection::view_pattern_rules_of(
                    s.package_structure_detector.patterns@,
                ).len() == 2
                &&& crate::detection::view_pattern_rules_of(
                    s.package_structure_detector.patterns@,
                )[0].name == "missing_readme"@
                &&& crate::detection::view_pattern_rules_of(
                    s.eslint_config_detector.patterns@,
                ).len() == 2
                &&& crate::detection::view_pattern_rules_of(
                    s.eslint_config_detector.patterns@,
                )[0].name == "missing_eslint_config"@
                &&& crate::detection::view_pattern_rules_of(
                    s.test_file_detector.patterns@,
                ).len() == 2
                &&& crate::detection::view_pattern_rules_of(
                    s.test_file_detector.patterns@,
                )[0].name == "wrong_test_extension"@
            },
    {
        let ext_rules = TypeScriptRuleSet::file_extension_rules();
        let ghost ext_v = ext_rules@;
        let file_extension_detector = match PatternDetector::new(ext_rules) {
            Ok(d) => d,
            Err(e) => {
                return Err(e);
            },
        };
        proof {
            lemma_detector_rules(file_extension_detector.patterns@, ext_v);
        }
        let alias_rules = TypeScriptRuleSet::path_alias_rules();
        let ghost alias_v = alias_rules@;
        let path_alias_detector = match PatternDetector::new(alias_rules) {
            Ok(d) => d,
            Err(e) => {
                return Err(e);
            },
        };
        proof {
            lemma_detector_rules(path_alias_detector.patterns@, alias_v);
        }
        let module_system_detector = FunctionCallDetector::new(
            TypeScriptRuleSet::module_system_rules(),
        );
        let style_rules = TypeScriptRuleSet::code_style_rules();
        let ghost style_v = style_rules@;
        let code_style_detector = match PatternDetector::new(style_rules) {
            Ok(d) => d,
            Err(e) => {
                return Err(e);
            },
        };
        proof {
            lemma_detector_rules(code_style_detector.patterns@, style_v);
        }
        let pkg_rules = TypeScriptRuleSet::package_structure_rules();
        let ghost pkg_v = pkg_rules@;
        let package_structure_detector = match PatternDetector::new(pkg_rules) {
            Ok(d) => d,
            Err(e) => {
                return Err(e);
            },
        };
        proof {
            lemma_detector_rules(package_structure_detector.patterns@, pkg_v);
        }
        let lint_rules = TypeScriptRuleSet::eslint_config_rules();
        let ghost lint_v = lint_rules@;
        let eslint_config_detector = match PatternDetector::new(lint_rules) {
            Ok(d) => d,
            Err(e) => {
                return Err(e);
            },
        };
        proof {
            lemma_detector_rules(eslint_config_detector.patterns@, lint_v);
        }
        let test_rules = TypeScriptRuleSet::test_file_rules();
        let ghost test_v = test_rules@;
        let test_file_detector = match PatternDetector::new(test_rules) {
            Ok(d) => d,
            Err(e) => {
                return Err(e);
            },
        };
        proof {
            lemma_detector_rules(test_file_detector.patterns@, test_v);
        }
        Ok(
            TypeScriptScanner {
                file_extension_detector,
                path_alias_detector,
                module_system_detector,
                code_style_detector,
                package_structure_detector,
                eslint_config_detector,
                test_file_detector,
            },
        )
    }

    /// Scans one file's text under its file name: the extension rules always
    /// run; the alias and lint-configuration rules run on `tsconfig.json` and
    /// `package.json`; the module, style and structure rules run on script
    /// files; the test rules run on test files. Every issue that comes back
    /// renders one match of one of the scanner's rules in this file.
    pub fn scan_content(&self, file_name: &str, content: &str) -> (r: Vec<DetectionIssue>)
        ensures
            forall|k: int| 0 <= k < r@.len() ==> #[trigger] ts_scan_issue(
                r@[k]@,
                self,
                file_name@,
            ),
    {
        let mut all_issues = self.file_extension_detector.scan_content(file_name, content);
        proof {
            lemma_all_ts(all_issues@, self, file_name@);
        }
        if str_eq(file_name, "tsconfig.json") || str_eq(file_name, "package.json") {
            let mut more = self.path_alias_detector.scan_content(file_name, content);
            append_ts(self, &mut all_issues, more, Ghost(file_name@));
            let more2 = self.eslint_config_detector.scan_content(file_name, content);
            append_ts(self, &mut all_issues, more2, Ghost(file_name@));
        }
        let is_script = str_ends_with(file_name, ".ts") || str_ends_with(file_name, ".mts")
            || str_ends_with(file_name, ".cts") || str_ends_with(file_name, ".tsx")
            || str_ends_with(file_name, ".js") || str_ends_with(file_name, ".mjs")
            || str_ends_with(file_name, ".cjs") || str_ends_with(file_name, ".jsx");
        if is_script {
            let more = self.module_system_detector.scan_content(file_name, content);
            append_ts(self, &mut all_issues, more, Ghost(file_name@));
            let more2 = self.code_style_detector.scan_content(file_name, content);
            append_ts(self, &mut all_issues, more2, Ghost(file_name@));
            let more3 = self.package_structure_detector.scan_content(file_name, content);
            append_ts(self, &mut all_issues, more3, Ghost(file_name@));
        }
        if str_ends_with(file_name, ".test.ts") || str_ends_with(file_name, ".test.mts")
            || str_ends_with(file_name, ".test.js") || str_ends_with(file_name, ".spec.ts")
            || str_ends_with(file_name, ".spec.mts") {
            let more = self.test_file_detector.scan_content(file_name, content);
            append_ts(self, &mut all_issues, more, Ghost(file_name@));
        }
        all_issues
    }
}

/// Compiling a rule table keeps the rules: the detector's rules, viewed,
/// are the table's rules, viewed.
proof fn lemma_detector_rules(
    patterns: Seq<(PatternRule, regex::Regex)>,
    rules: Seq<PatternRule>,
)
    requires
        patterns.len() == rules.len(),
        forall|i: int| 0 <= i < patterns.len() ==> #[trigger] patterns[i].0 == rules[i],
    ensures
        crate::detection::view_pattern_rules_of(patterns) == view_pattern_rules(rules),
{
    crate::detection::lemma_view_pattern_rules_of(patterns);
    crate::detection::lemma_view_pattern_rules(rules);
    assert(crate::detection::view_pattern_rules_of(patterns) =~= view_pattern_rules(rules));
}

/// Whether the issue is the rendering of one match or call of one of the
/// scanner's rule tables in the given file.
pub open spec fn ts_scan_issue(
    iv: crate::detection::DetectionIssueV,
    s: &TypeScriptScanner,
    file: Seq<char>,
) -> bool {
    ||| crate::detection::rendered_match(
        iv,
        crate::detection::view_pattern_rules_of(s.file_extension_detector.patterns@),
        file,
    )
    ||| crate::detection::rendered_match(
        iv,
        crate::detection::view_pattern_rules_of(s.path_alias_detector.patterns@),
        file,
    )
    ||| crate::detection::rendered_call(
        iv,
        crate::detection::view_fn_rules(s.module_system_detector.rules@),
        file,
    )
    ||| crate::detection::rendered_match(
        iv,
        crate::detection::view_pattern_rules_of(s.code_style_detector.patterns@),
        file,
    )
    ||| crate::detection::rendered_match(
        iv,
        crate::detection::view_pattern_rules_of(s.package_structure_detector.patterns@),
        file,
    )
    ||| crate::detection::rendered_match(
        iv,
        crate::detection::view_pattern_rules_of(s.eslint_config_detector.patterns@),
        file,
    )
    ||| crate::detection::rendered_match(
        iv,
        crate::detection::view_pattern_rules_of(s.test_file_detector.patterns@),
        file,
    )
}

proof fn lemma_all_ts(
    issues: Seq<DetectionIssue>,
    s: &TypeScriptScanner,
    file: Seq<char>,
)
    requires
        forall|k: int|
            0 <= k < issues.len() ==> (crate::detection::rendered_match(
                #[trigger] issues[k]@,
                crate::detection::view_pattern_rules_of(s.file_extension_detector.patterns@),
                file,
            ) || crate::detection::rendered_match(
                issues[k]@,
                crate::detection::view_pattern_rules_of(s.path_alias_detector.patterns@),
                file,
            ) || crate::detection::rendered_call(
                issues[k]@,
                crate::detection::view_fn_rules(s.module_system_detector.rules@),
                file,
            ) || crate::detection::rendered_match(
                issues[k]@,
                crate::detection::view_pattern_rules_of(s.code_style_detector.patterns@),
                file,
            ) || crate::detection::rendered_match(
                issues[k]@,
                crate::detection::view_pattern_rules_of(
                    s.package_structure_detector.patterns@,
                ),
                file,
            ) || crate::detection::rendered_match(
                issues[k]@,
                crate::detection::view_pattern_rules_of(s.eslint_config_detector.patterns@),
                file,
            ) || crate::detection::rendered_match(
                issues[k]@,
                crate::detection::view_pattern_rules_of(s.test_file_detector.patterns@),
                file,
            )),
    ensures
        forall|k: int| 0 <= k < issues.len() ==> #[trigger] ts_scan_issue(
            issues[k]@,
            s,
            file,
        ),
{
}

fn append_ts(
    s: &TypeScriptScanner,
    all_issues: &mut Vec<DetectionIssue>,
    more: Vec<DetectionIssue>,
    Ghost(file): Ghost<Seq<char>>,
)
    requires
        forall|k: int| 0 <= k < old(all_issues)@.len() ==> #[trigger] ts_scan_issue(
            old(all_issues)@[k]@,
            s,
            file,
        ),
        forall|k: int|
            0 <= k < more@.len() ==> (crate::detection::rendered_match(
                #[trigger] more@[k]@,
                crate::detection::view_pattern_rules_of(s.file_extension_detector.patterns@),
                file,
            ) || crate::detection::rendered_match(
                more@[k]@,
                crate::detection::view_pattern_rules_of(s.path_alias_detector.patterns@),
                file,
            ) || crate::detection::rendered_call(
                more@[k]@,
                crate::detection::view_fn_rules(s.module_system_detector.rules@),
                file,
            ) || crate::detection::rendered_match(
                more@[k]@,
                crate::detection::view_pattern_rules_of(s.code_style_detector.patterns@),
                file,
            ) || crate::detection::rendered_match(
                more@[k]@,
                crate::detection::view_pattern_rules_of(
                    s.package_structure_detector.patterns@,
                ),
                file,
            ) || crate::detection::rendered_match(
                more@[k]@,
                crate::detection::view_pattern_rules_of(s.eslint_config_detector.patterns@),
                file,
            ) || crate::detection::rendered_match(
                more@[k]@,
                crate::detection::view_pattern_rules_of(s.test_file_detector.patterns@),
                file,
            )),
    ensures
        forall|k: int| 0 <= k < final(all_issues)@.len() ==> #[trigger] ts_scan_issue(
            final(all_issues)@[k]@,
            s,
            file,
        ),
{
    let ghost pre = all_issues@;
    let ghost morev = more@;
    let mut more = more;
    all_issues.append(&mut more);
    proof {
        assert forall|k: int| 0 <= k < all_issues@.len() implies #[trigger] ts_scan_issue(
            all_issues@[k]@,
            s,
            file,
        ) by {
            if k < pre.len() {
                assert(all_issues@[k] == pre[k]);
            } else {
                assert(all_issues@[k] == morev[k - pre.len()]);
            }
        }
    }
}

} // verus!

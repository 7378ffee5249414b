//! Validation rules for the configuration files of a web project: the
//! TypeScript compiler configuration, the lint configuration, the style
//! configuration, and the package manifest, each checked as plain text.

use vstd::prelude::*;

verus! {

use crate::text::seq_contains;
use crate::text::seq_ends_with;
use crate::text::str_contains;
use crate::text::str_ends_with;
use crate::text::str_eq;
use crate::text::str_to_string;

/// One finding of a configuration-file check.
#[derive(Debug)]
pub struct ConfigViolation {
    pub file: String,
    pub severity: String,
    pub message: String,
}

/// The mathematical form of a finding.
#[verifier::ext_equal]
pub struct ViolationV {
    pub file: Seq<char>,
    pub severity: Seq<char>,
    pub message: Seq<char>,
}

impl View for ConfigViolation {
    type V = ViolationV;

    open spec fn view(&self) -> ViolationV {
        ViolationV { file: self.file@, severity: self.severity@, message: self.message@ }
    }
}

/// The mathematical forms of a sequence of findings.
pub open spec fn view_violations(a: Seq<ConfigViolation>) -> Seq<ViolationV>
    decreases a,
{
    if a.len() == 0 {
        Seq::empty()
    } else {
        seq![a[0]@] + view_violations(a.skip(1))
    }
}

/// The form of a sequence of findings, element by element.
pub proof fn lemma_view_violations(a: Seq<ConfigViolation>)
    ensures
        view_violations(a).len() == a.len(),
        forall|i: int| 0 <= i < a.len() ==> view_violations(a)[i] == a[i]@,
    decreases a.len(),
{
    if a.len() > 0 {
        lemma_view_violations(a.skip(1));
        assert forall|i: int| 0 <= i < a.len() implies view_violations(a)[i] == a[i]@ by {
            if i > 0 {
                assert(view_violations(a)[i] == view_violations(a.skip(1))[i - 1]);
                assert(a.skip(1)[i - 1] == a[i]);
            }
        }
    }
}

/// A finding, the three fields as given.
pub open spec fn violation(file: Seq<char>, severity: Seq<char>, message: Seq<char>) -> ViolationV {
    ViolationV { file, severity, message }
}

fn push_violation(out: &mut Vec<ConfigViolation>, file: &str, severity: &str, message: &str)
    ensures
        final(out)@.len() == old(out)@.len() + 1,
        forall|j: int| 0 <= j < old(out)@.len() ==> final(out)@[j] == old(out)@[j],
        final(out)@[old(out)@.len() as int]@ == violation(file@, severity@, message@),
{
    out.push(
        ConfigViolation {
            file: str_to_string(file),
            severity: str_to_string(severity),
            message: str_to_string(message),
        },
    );
}

/// What validating a TypeScript compiler configuration finds: strict mode,
/// module resolution, the ambiguous `@/*` path alias, and the root and output
/// directories.
pub open spec fn spec_tsconfig_violations(c: Seq<char>) -> Seq<ViolationV> {
    (if !(seq_contains(c, "\"strict\": true"@) || seq_contains(c, "'strict': true"@)) {
        seq![
            violation(
                "tsconfig.json"@,
                "high"@,
                "TypeScript strict mode not enabled. Add \"strict\": true"@,
            ),
        ]
    } else {
        Seq::empty()
    }) + (if !seq_contains(c, "moduleResolution"@) {
        seq![
            violation(
                "tsconfig.json"@,
                "medium"@,
                "moduleResolution not configured. Recommended: \"bundler\" or \"node\""@,
            ),
        ]
    } else {
        Seq::empty()
    }) + (if seq_contains(c, "\"@/*\""@) || seq_contains(c, "'@/*'"@) {
        seq![
            violation(
                "tsconfig.json"@,
                "high"@,
                "Ambiguous path alias @/* detected. Use explicit aliases like @/core/*, @/features/*"@,
            ),
        ]
    } else {
        Seq::empty()
    }) + (if !(seq_contains(c, "\"rootDir\""@) || seq_contains(c, "'rootDir'"@)) {
        seq![
            violation(
                "tsconfig.json"@,
                "medium"@,
                "rootDir not configured. Recommended: \"./src\""@,
            ),
        ]
    } else {
        Seq::empty()
    }) + (if !(seq_contains(c, "\"outDir\""@) || seq_contains(c, "'outDir'"@)) {
        seq![
            violation(
                "tsconfig.json"@,
                "medium"@,
                "outDir not configured. Recommended: \"./dist\""@,
            ),
        ]
    } else {
        Seq::empty()
    })
}

/// What validating a lint configuration finds: the file must be named
/// `eslint.config.mts`, build on the shared base configuration, and a web
/// project should carry the runtime guards plugin.
pub open spec fn spec_eslint_violations(c: Seq<char>, file_name: Seq<char>) -> Seq<
    ViolationV,
> {
    (if file_name != "eslint.config.mts"@ {
        seq![
            violation(
                file_name,
                "high"@,
                "ESLint config must be named eslint.config.mts (not .ts or .js)"@,
            ),
        ]
    } else {
        Seq::empty()
    }) + (if !seq_contains(c, "@job-aide/tools-lint-eslint-config"@) {
        seq![
            violation(
                "eslint.config.mts"@,
                "high"@,
                "Must use @job-aide/tools-lint-eslint-config as base config"@,
            ),
        ]
    } else {
        Seq::empty()
    }) + (if seq_contains(c, "react: true"@) && !seq_contains(c, "require-browser-guard"@) {
        seq![
            violation(
                "eslint.config.mts"@,
                "medium"@,
                "Web project should include runtime guards plugin for browser safety"@,
            ),
        ]
    } else {
        Seq::empty()
    })
}

/// What validating a style configuration finds: a TypeScript file name and a
/// non-empty content list.
pub open spec fn spec_tailwind_violations(c: Seq<char>, file_name: Seq<char>) -> Seq<
    ViolationV,
> {
    (if !(seq_ends_with(file_name, ".ts"@) || seq_ends_with(file_name, ".mts"@)) {
        seq![
            violation(file_name, "high"@, "Tailwind config must be .ts or .mts (not .js)"@),
        ]
    } else {
        Seq::empty()
    }) + (if !(seq_contains(c, "content:"@) || seq_contains(c, "content :"@)) {
        seq![
            violation(
                file_name,
                "high"@,
                "Tailwind content configuration missing. Add content array with file patterns"@,
            ),
        ]
    } else {
        Seq::empty()
    }) + (if seq_contains(c, "content: []"@) || seq_contains(c, "content: [ ]"@) {
        seq![
            violation(
                file_name,
                "high"@,
                "Tailwind content array is empty. Add file patterns for purging"@,
            ),
        ]
    } else {
        Seq::empty()
    })
}

/// What validating a package manifest finds: the module type, an exports
/// field for a named package, and scripts that call npm or yarn.
pub open spec fn spec_package_json_violations(c: Seq<char>) -> Seq<ViolationV> {
    (if !(seq_contains(c, "\"type\""@) || seq_contains(c, "'type'"@)) {
        seq![
            violation(
                "package.json"@,
                "high"@,
                "Missing \"type\" field. Add \"type\": \"module\" for ESM packages"@,
            ),
        ]
    } else {
        Seq::empty()
    }) + (if seq_contains(c, "\"name\""@) && !seq_contains(c, "\"exports\""@) {
        seq![
            violation(
                "package.json"@,
                "medium"@,
                "Missing \"exports\" field. Recommended for library packages"@,
            ),
        ]
    } else {
        Seq::empty()
    }) + (if seq_contains(c, "npm run"@) || seq_contains(c, "npm install"@) {
        seq![
            violation(
                "package.json"@,
                "high"@,
                "npm commands detected in scripts. Use pnpm instead"@,
            ),
        ]
    } else {
        Seq::empty()
    }) + (if seq_contains(c, "yarn "@) {
        seq![
            violation(
                "package.json"@,
                "high"@,
                "yarn commands detected in scripts. Use pnpm instead"@,
            ),
        ]
    } else {
        Seq::empty()
    })
}

/// The configuration-file checks, as pure functions of the file's text.
pub struct ConfigValidationRuleSet;

impl ConfigValidationRuleSet {
    /// Validates the text of a `tsconfig.json`.
    pub fn validate_tsconfig(content: &str) -> (r: Result<Vec<ConfigViolation>, String>)
        ensures
            match r {
                Ok(v) => view_violations(v@) == spec_tsconfig_violations(content@),
                Err(_) => false,
            },
    {
        let mut out: Vec<ConfigViolation> = Vec::new();
        if !(str_contains(content, "\"strict\": true") || str_contains(
            content,
            "'strict': true",
        )) {
            push_violation(
                &mut out,
                "tsconfig.json",
                "high",
                "TypeScript strict mode not enabled. Add \"strict\": true",
            );
        }
        if !str_contains(content, "moduleResolution") {
            push_violation(
                &mut out,
                "tsconfig.json",
                "medium",
                "moduleResolution not configured. Recommended: \"bundler\" or \"node\"",
            );
        }
        if str_contains(content, "\"@/*\"") || str_contains(content, "'@/*'") {
            push_violation(
                &mut out,
                "tsconfig.json",
                "high",
                "Ambiguous path alias @/* detected. Use explicit aliases like @/core/*, @/features/*",
            );
        }
        if !(str_contains(content, "\"rootDir\"") || str_contains(content, "'rootDir'")) {
            push_violation(
                &mut out,
                "tsconfig.json",
                "medium",
                "rootDir not configured. Recommended: \"./src\"",
            );
        }
        if !(str_contains(content, "\"outDir\"") || str_contains(content, "'outDir'")) {
            push_violation(
                &mut out,
                "tsconfig.json",
                "medium",
                "outDir not configured. Recommended: \"./dist\"",
            );
        }
        proof {
            lemma_view_violations(out@);
            assert(view_violations(out@) =~= spec_tsconfig_violations(content@));
        }
        Ok(out)
    }

    /// Validates the text of a lint configuration under its file name.
    pub fn validate_eslint_config(content: &str, file_name: &str) -> (r: Result<
        Vec<ConfigViolation>,
        String,
    >)
        ensures
            match r {
                Ok(v) => view_violations(v@) == spec_eslint_violations(content@, file_name@),
                Err(_) => false,
            },
    {
        let mut out: Vec<ConfigViolation> = Vec::new();
        if !str_eq(file_name, "eslint.config.mts") {
            push_violation(
                &mut out,
                file_name,
                "high",
                "ESLint config must be named eslint.config.mts (not .ts or .js)",
            );
        }
        if !str_contains(content, "@job-aide/tools-lint-eslint-config") {
            push_violation(
                &mut out,
                "eslint.config.mts",
                "high",
                "Must use @job-aide/tools-lint-eslint-config as base config",
            );
        }
        if str_contains(content, "react: true") && !str_contains(
            content,
            "require-browser-guard",
        ) {
            push_violation(
                &mut out,
                "eslint.config.mts",
                "medium",
                "Web project should include runtime guards plugin for browser safety",
            );
        }
        proof {
            lemma_view_violations(out@);
            assert(view_violations(out@) =~= spec_eslint_violations(content@, file_name@));
        }
        Ok(out)
    }

    /// Validates the text of a style configuration under its file name.
    pub fn validate_tailwind_config(content: &str, file_name: &str) -> (r: Result<
        Vec<ConfigViolation>,
        String,
    >)
        ensures
            match r {
                Ok(v) => view_violations(v@) == spec_tailwind_violations(
                    content@,
                    file_name@,
                ),
                Err(_) => false,
            },
    {
        let mut out: Vec<ConfigViolation> = Vec::new();
        if !(str_ends_with(file_name, ".ts") || str_ends_with(file_name, ".mts")) {
            push_violation(
                &mut out,
                file_name,
                "high",
                "Tailwind config must be .ts or .mts (not .js)",
            );
        }
        if !(str_contains(content, "content:") || str_contains(content, "content :")) {
            push_violation(
                &mut out,
                file_name,
                "high",
                "Tailwind content configuration missing. Add content array with file patterns",
            );
        }
        if str_contains(content, "content: []") || str_contains(content, "content: [ ]") {
            push_violation(
                &mut out,
                file_name,
                "high",
                "Tailwind content array is empty. Add file patterns for purging",
            );
        }
        proof {
            lemma_view_violations(out@);
            assert(view_violations(out@) =~= spec_tailwind_violations(content@, file_name@));
        }
        Ok(out)
    }

    /// Validates the text of a package manifest.
    pub fn validate_package_json(content: &str) -> (r: Result<Vec<ConfigViolation>, String>)
        ensures
            match r {
                Ok(v) => view_violations(v@) == spec_package_json_violations(content@),
                Err(_) => false,
            },
    {
        let mut out: Vec<ConfigViolation> = Vec::new();
        if !(str_contains(content, "\"type\"") || str_contains(content, "'type'")) {
            push_violation(
                &mut out,
                "package.json",
                "high",
                "Missing \"type\" field. Add \"type\": \"module\" for ESM packages",
            );
        }
        if str_contains(content, "\"name\"") && !str_contains(content, "\"exports\"") {
            push_violation(
                &mut out,
                "package.json",
                "medium",
                "Missing \"exports\" field. Recommended for library packages",
            );
        }
        if str_contains(content, "npm run") || str_contains(content, "npm install") {
            push_violation(
                &mut out,
                "package.json",
                "high",
                "npm commands detected in scripts. Use pnpm instead",
            );
        }
        if str_contains(content, "yarn ") {
            push_violation(
                &mut out,
                "package.json",
                "high",
                "yarn commands detected in scripts. Use pnpm instead",
            );
        }
        proof {
            lemma_view_violations(out@);
            assert(view_violations(out@) =~= spec_package_json_violations(content@));
        }
        Ok(out)
    }
}

} // verus!

//! Generic pattern detection: rules carrying a regular expression (compiled
//! and run by the regex crate, behind a trusted boundary) or a list of
//! function names, and the issues their matches raise. The rendering of each
//! issue from a match is verified exactly; which positions a regular
//! expression matches is the regex crate's business.

use vstd::prelude::*;

verus! {

use crate::events::view_opt_str;
use crate::numbers::spec_udec;
use crate::text::spec_replace;
use crate::text::str_to_string;
use crate::text::view_strs;

/// A regular-expression rule: where it matches, an issue with the rendered
/// message arises.
#[derive(Debug)]
pub struct PatternRule {
    pub name: String,
    pub pattern: String,
    pub severity: String,
    pub message_template: String,
    pub fix_template: Option<String>,
    pub case_sensitive: bool,
}

/// The mathematical form of a pattern rule.
#[verifier::ext_equal]
pub struct PatternRuleV {
    pub name: Seq<char>,
    pub pattern: Seq<char>,
    pub severity: Seq<char>,
    pub message_template: Seq<char>,
    pub fix_template: Option<Seq<char>>,
    pub case_sensitive: bool,
}

impl View for PatternRule {
    type V = PatternRuleV;

    open spec fn view(&self) -> PatternRuleV {
        PatternRuleV {
            name: self.name@,
            pattern: self.pattern@,
            severity: self.severity@,
            message_template: self.message_template@,
            fix_template: view_opt_str(self.fix_template),
            case_sensitive: self.case_sensitive,
        }
    }
}

/// The mathematical forms of a sequence of pattern rules.
pub open spec fn view_pattern_rules(a: Seq<PatternRule>) -> Seq<PatternRuleV>
    decreases a,
{
    if a.len() == 0 {
        Seq::empty()
    } else {
        seq![a[0]@] + view_pattern_rules(a.skip(1))
    }
}

/// The form of a sequence of pattern rules, element by element.
pub proof fn lemma_view_pattern_rules(a: Seq<PatternRule>)
    ensures
        view_pattern_rules(a).len() == a.len(),
        forall|i: int| 0 <= i < a.len() ==> view_pattern_rules(a)[i] == a[i]@,
    decreases a.len(),
{
    if a.len() > 0 {
        lemma_view_pattern_rules(a.skip(1));
        assert forall|i: int| 0 <= i < a.len() implies view_pattern_rules(a)[i]
            == a[i]@ by {
            if i > 0 {
                assert(view_pattern_rules(a)[i] == view_pattern_rules(a.skip(1))[i - 1]);
                assert(a.skip(1)[i - 1] == a[i]);
            }
        }
    }
}

/// A rule flagging calls of the named functions.
#[derive(Debug)]
pub struct FunctionCallRule {
    pub name: String,
    pub function_names: Vec<String>,
    pub severity: String,
    pub message_template: String,
    pub fix_template: Option<String>,
}

/// The mathematical form of a function-call rule.
#[verifier::ext_equal]
pub struct FunctionCallRuleV {
    pub name: Seq<char>,
    pub function_names: Seq<Seq<char>>,
    pub severity: Seq<char>,
    pub message_template: Seq<char>,
    pub fix_template: Option<Seq<char>>,
}

impl View for FunctionCallRule {
    type V = FunctionCallRuleV;

    open spec fn view(&self) -> FunctionCallRuleV {
        FunctionCallRuleV {
            name: self.name@,
            function_names: view_strs(self.function_names@),
            severity: self.severity@,
            message_template: self.message_template@,
            fix_template: view_opt_str(self.fix_template),
        }
    }
}

/// The mathematical forms of a sequence of function-call rules.
pub open spec fn view_fn_rules(a: Seq<FunctionCallRule>) -> Seq<FunctionCallRuleV>
    decreases a,
{
    if a.len() == 0 {
        Seq::empty()
    } else {
        seq![a[0]@] + view_fn_rules(a.skip(1))
    }
}

/// The form of a sequence of function-call rules, element by element.
pub proof fn lemma_view_fn_rules(a: Seq<FunctionCallRule>)
    ensures
        view_fn_rules(a).len() == a.len(),
        forall|i: int| 0 <= i < a.len() ==> view_fn_rules(a)[i] == a[i]@,
    decreases a.len(),
{
    if a.len() > 0 {
        lemma_view_fn_rules(a.skip(1));
        assert forall|i: int| 0 <= i < a.len() implies view_fn_rules(a)[i] == a[i]@ by {
            if i > 0 {
                assert(view_fn_rules(a)[i] == view_fn_rules(a.skip(1))[i - 1]);
                assert(a.skip(1)[i - 1] == a[i]);
            }
        }
    }
}

/// One match of a rule in one file.
#[derive(Debug)]
pub struct DetectionIssue {
    pub file: String,
    pub line: usize,
    pub column: usize,
    pub pattern_name: String,
    pub matched_text: String,
    pub message: String,
    pub severity: String,
    pub fix: Option<String>,
}

/// The mathematical form of a detection issue.
#[verifier::ext_equal]
pub struct DetectionIssueV {
    pub file: Seq<char>,
    pub line: int,
    pub column: int,
    pub pattern_name: Seq<char>,
    pub matched_text: Seq<char>,
    pub message: Seq<char>,
    pub severity: Seq<char>,
    pub fix: Option<Seq<char>>,
}

impl View for DetectionIssue {
    type V = DetectionIssueV;

    open spec fn view(&self) -> DetectionIssueV {
        DetectionIssueV {
            file: self.file@,
            line: self.line as int,
            column: self.column as int,
            pattern_name: self.pattern_name@,
            matched_text: self.matched_text@,
            message: self.message@,
            severity: self.severity@,
            fix: view_opt_str(self.fix),
        }
    }
}

#[verifier::external_type_specification]
#[verifier::external_body]
pub struct ExRegex(regex::Regex);

/// Relies on regex::Regex::new: compiles the pattern, failing exactly on
/// invalid pattern syntax (or a too-large pattern).
#[verifier::external_body]
fn regex_new(pattern: &str) -> Option<regex::Regex> {
    regex::Regex::new(pattern).ok()
}

/// Relies on regex::Regex::find_iter: every non-overlapping match of the
/// expression in the text, leftmost first, as its byte offset and its text.
#[verifier::external_body]
fn regex_find_all(re: &regex::Regex, text: &str) -> Vec<(usize, String)> {
    re.find_iter(text).map(|m| (m.start(), m.as_str().to_string())).collect()
}

/// What regex::escape yields on the given text: the text with every regex
/// metacharacter escaped, a function of the text alone.
pub uninterp spec fn regex_escaped(s: Seq<char>) -> Seq<char>;

/// Relies on regex::escape: escapes every regex metacharacter of the text,
/// deterministically.
#[verifier::external_body]
fn regex_escape(name: &str) -> (r: String)
    ensures
        r@ == regex_escaped(name@),
{
    regex::escape(name)
}

/// The expression matching a call of the named function: a word boundary,
/// the escaped name, optional blanks, an opening parenthesis.
pub open spec fn spec_call_pattern(name: Seq<char>) -> Seq<char> {
    "\\b"@ + regex_escaped(name) + "\\s*\\("@
}

fn function_call_pattern(name: &str) -> (r: String)
    ensures
        r@ == spec_call_pattern(name@),
{
    let mut out = str_to_string("\\b");
    let escaped = regex_escape(name);
    crate::text::append_str(&mut out, escaped.as_str());
    crate::text::append_str(&mut out, "\\s*\\(");
    out
}

/// The message of an issue: the rule's template with the `{matched}`,
/// `{file}`, `{line}` and `{column}` markers replaced, in that order.
pub open spec fn spec_render_message(
    template: Seq<char>,
    matched: Seq<char>,
    file: Seq<char>,
    line: int,
    column: int,
) -> Seq<char> {
    spec_replace(
        spec_replace(
            spec_replace(spec_replace(template, "{matched}"@, matched), "{file}"@, file),
            "{line}"@,
            spec_udec(line as nat),
        ),
        "{column}"@,
        spec_udec(column as nat),
    )
}

/// The fix of an issue: the rule's fix template, when it has one, with the
/// `{matched}` and `{file}` markers replaced.
pub open spec fn spec_render_fix(
    fix_template: Option<Seq<char>>,
    matched: Seq<char>,
    file: Seq<char>,
) -> Option<Seq<char>> {
    match fix_template {
        Some(t) => Some(spec_replace(spec_replace(t, "{matched}"@, matched), "{file}"@, file)),
        None => None,
    }
}

/// The issue a pattern rule raises for one match: the match's place, its
/// text, and the rendered message and fix. Lines and columns are reported
/// one-based and zero-based respectively, as the scanners produce them.
pub open spec fn spec_issue_of_match(
    rule: PatternRuleV,
    file: Seq<char>,
    line: int,
    column: int,
    matched: Seq<char>,
) -> DetectionIssueV {
    DetectionIssueV {
        file,
        line,
        column,
        pattern_name: rule.name,
        matched_text: matched,
        message: spec_render_message(rule.message_template, matched, file, line, column),
        severity: rule.severity,
        fix: spec_render_fix(rule.fix_template, matched, file),
    }
}

/// Renders the issue for one match of a pattern rule.
pub fn issue_from_match(
    rule: &PatternRule,
    file: &str,
    line: usize,
    column: usize,
    matched: &str,
) -> (r: DetectionIssue)
    ensures
        r@ == spec_issue_of_match(rule@, file@, line as int, column as int, matched@),
{
    proof {
        reveal_strlit("{matched}");
        reveal_strlit("{file}");
        reveal_strlit("{line}");
        reveal_strlit("{column}");
    }
    let line_text = crate::numbers::u64_to_dec(line as u64);
    let column_text = crate::numbers::u64_to_dec(column as u64);
    let m1 = crate::text::str_replace(rule.message_template.as_str(), "{matched}", matched);
    let m2 = crate::text::str_replace(m1.as_str(), "{file}", file);
    let m3 = crate::text::str_replace(m2.as_str(), "{line}", line_text.as_str());
    let message = crate::text::str_replace(m3.as_str(), "{column}", column_text.as_str());
    let fix = match &rule.fix_template {
        Some(t) => {
            let f1 = crate::text::str_replace(t.as_str(), "{matched}", matched);
            Some(crate::text::str_replace(f1.as_str(), "{file}", file))
        },
        None => None,
    };
    let r = DetectionIssue {
        file: str_to_string(file),
        line,
        column,
        pattern_name: str_to_string(rule.name.as_str()),
        matched_text: str_to_string(matched),
        message,
        severity: str_to_string(rule.severity.as_str()),
        fix,
    };
    assert(r@ =~= spec_issue_of_match(rule@, file@, line as int, column as int, matched@));
    r
}

/// A set of pattern rules with their compiled expressions.
pub struct PatternDetector {
    pub patterns: Vec<(PatternRule, regex::Regex)>,
}

impl PatternDetector {
    /// Compiles each rule's pattern, case-insensitively unless the rule asks
    /// otherwise. A pattern the regex crate rejects fails the whole set,
    /// naming the pattern.
    pub fn new(rules: Vec<PatternRule>) -> (r: Result<PatternDetector, String>)
        ensures
            match r {
                Ok(d) => d.patterns@.len() == rules@.len() && forall|i: int|
                    0 <= i < rules@.len() ==> #[trigger] d.patterns@[i].0 == rules@[i],
                Err(_) => true,
            },
    {
        let ghost rv = rules@;
        let mut remaining = rules;
        let mut patterns: Vec<(PatternRule, regex::Regex)> = Vec::new();
        while remaining.len() > 0
            invariant
                patterns@.len() + remaining@.len() == rv.len(),
                forall|i: int| 0 <= i < patterns@.len() ==> #[trigger] patterns@[i].0
                    == rv[i],
                forall|i: int| 0 <= i < remaining@.len() ==> #[trigger] remaining@[i]
                    == rv[patterns@.len() + i],
            decreases remaining.len(),
        {
            let ghost done = patterns@.len() as int;
            let ghost old_rem = remaining@;
            let rule = remaining.remove(0);
            proof {
                assert(old_rem[0] == rv[done]);
                assert(rule == old_rem[0]);
                assert(remaining@ =~= old_rem.skip(1));
                assert(forall|i: int| 0 <= i < remaining@.len() ==> #[trigger] remaining@[i]
                    == old_rem[i + 1]);
            }
            let flags = if rule.case_sensitive {
                "(?-i)"
            } else {
                "(?i)"
            };
            let mut pattern_text = str_to_string(flags);
            crate::text::append_str(&mut pattern_text, rule.pattern.as_str());
            let compiled = match regex_new(pattern_text.as_str()) {
                Some(re) => re,
                None => {
                    let mut m = str_to_string("invalid pattern: ");
                    crate::text::append_str(&mut m, rule.pattern.as_str());
                    return Err(m);
                },
            };
            let ghost old_patterns = patterns@;
            let ghost grule = rule;
            proof {
                assert(grule == rv[done]);
            }
            patterns.push((rule, compiled));
            proof {
                assert forall|i: int| 0 <= i < patterns@.len() implies #[trigger] patterns@[i].0
                    == rv[i] by {
                    if i < done {
                        assert(patterns@[i] == old_patterns[i]);
                    } else {
                        assert(patterns@[i].0 == grule);
                    }
                }
            }
        }
        Ok(PatternDetector { patterns })
    }

    /// The number of compiled patterns held.
    pub fn pattern_count(&self) -> (r: usize)
        ensures
            r == self.patterns@.len(),
    {
        self.patterns.len()
    }

    /// Scans a file's text, line by line: every match of every rule's
    /// expression becomes an issue, rendered by `issue_from_match` with the
    /// one-based line and the match's offset in the line. Which places match
    /// is the regex crate's answer; whatever it answered, every issue that
    /// comes back renders one match of one of the held rules in this file.
    pub fn scan_content(&self, file: &str, content: &str) -> (r: Vec<DetectionIssue>)
        ensures
            forall|k: int| 0 <= k < r@.len() ==> #[trigger] rendered_match(
                r@[k]@,
                view_pattern_rules_of(self.patterns@),
                file@,
            ),
    {
        let ghost rules = view_pattern_rules_of(self.patterns@);
        proof {
            lemma_view_pattern_rules_of(self.patterns@);
        }
        let lines = crate::text::lines_of(content);
        let mut issues: Vec<DetectionIssue> = Vec::new();
        let mut pi: usize = 0;
        while pi < self.patterns.len()
            invariant
                rules == view_pattern_rules_of(self.patterns@),
                rules.len() == self.patterns@.len(),
                forall|j: int| 0 <= j < rules.len() ==> rules[j] == self.patterns@[j].0@,
                forall|k: int| 0 <= k < issues@.len() ==> #[trigger] rendered_match(
                    issues@[k]@,
                    rules,
                    file@,
                ),
            decreases self.patterns.len() - pi,
        {
            let mut li: usize = 0;
            while li < lines.len()
                invariant
                    pi < self.patterns@.len(),
                    rules == view_pattern_rules_of(self.patterns@),
                    rules.len() == self.patterns@.len(),
                    forall|j: int| 0 <= j < rules.len() ==> rules[j]
                        == self.patterns@[j].0@,
                    forall|k: int| 0 <= k < issues@.len() ==> #[trigger] rendered_match(
                        issues@[k]@,
                        rules,
                        file@,
                    ),
                decreases lines.len() - li,
            {
                let found = regex_find_all(&self.patterns[pi].1, lines[li].as_str());
                let mut mi: usize = 0;
                while mi < found.len()
                    invariant
                        pi < self.patterns@.len(),
                        li < lines@.len(),
                        rules == view_pattern_rules_of(self.patterns@),
                        rules.len() == self.patterns@.len(),
                        forall|j: int| 0 <= j < rules.len() ==> rules[j]
                            == self.patterns@[j].0@,
                        forall|k: int| 0 <= k < issues@.len() ==> #[trigger] rendered_match(
                            issues@[k]@,
                            rules,
                            file@,
                        ),
                    decreases found.len() - mi,
                {
                    if li < usize::MAX {
                        let issue = issue_from_match(
                            &self.patterns[pi].0,
                            file,
                            li + 1,
                            found[mi].0,
                            found[mi].1.as_str(),
                        );
                        let ghost pre = issues@;
                        let ghost iv = issue@;
                        proof {
                            assert(iv == spec_issue_of_match(
                                rules[pi as int],
                                file@,
                                li as int + 1,
                                found@[mi as int].0 as int,
                                found@[mi as int].1@,
                            ));
                            assert(rendered_match(iv, rules, file@));
                        }
                        issues.push(issue);
                        proof {
                            assert forall|k: int| 0 <= k < issues@.len() implies
                                #[trigger] rendered_match(issues@[k]@, rules, file@) by {
                                if k < pre.len() {
                                    assert(issues@[k] == pre[k]);
                                } else {
                                    assert(issues@[k]@ == iv);
                                }
                            }
                        }
                    }
                    mi = mi + 1;
                }
                li = li + 1;
            }
            pi = pi + 1;
        }
        issues
    }
}

/// Whether the issue is the rendering of one match of one of the rules in the
/// given file: some rule, some place and some matched text render to it.
pub open spec fn rendered_match(
    iv: DetectionIssueV,
    rules: Seq<PatternRuleV>,
    file: Seq<char>,
) -> bool {
    exists|ri: int, line: int, col: int, m: Seq<char>|
        0 <= ri < rules.len() && 1 <= line && 0 <= col && iv == #[trigger] spec_issue_of_match(
            rules[ri],
            file,
            line,
            col,
            m,
        )
}

/// Whether the issue is the rendering of one call site of one of the rules'
/// function names in the given file.
pub open spec fn rendered_call(
    iv: DetectionIssueV,
    rules: Seq<FunctionCallRuleV>,
    file: Seq<char>,
) -> bool {
    exists|ri: int, fi: int, line: int, col: int, m: Seq<char>|
        0 <= ri < rules.len() && 0 <= fi < rules[ri].function_names.len() && 1 <= line && 0
            <= col && iv == #[trigger] spec_call_issue(
            rules[ri],
            rules[ri].function_names[fi],
            file,
            line,
            col,
            m,
        )
}

/// The rules of a compiled pattern set, in order.
pub open spec fn view_pattern_rules_of(
    s: Seq<(PatternRule, regex::Regex)>,
) -> Seq<PatternRuleV>
    decreases s,
{
    if s.len() == 0 {
        Seq::empty()
    } else {
        seq![s[0].0@] + view_pattern_rules_of(s.skip(1))
    }
}

/// The rules of a compiled pattern set, element by element.
pub proof fn lemma_view_pattern_rules_of(s: Seq<(PatternRule, regex::Regex)>)
    ensures
        view_pattern_rules_of(s).len() == s.len(),
        forall|i: int| 0 <= i < s.len() ==> view_pattern_rules_of(s)[i] == s[i].0@,
    decreases s.len(),
{
    if s.len() > 0 {
        lemma_view_pattern_rules_of(s.skip(1));
        assert forall|i: int| 0 <= i < s.len() implies view_pattern_rules_of(s)[i]
            == s[i].0@ by {
            if i > 0 {
                assert(view_pattern_rules_of(s)[i] == view_pattern_rules_of(s.skip(1))[i
                    - 1]);
                assert(s.skip(1)[i - 1] == s[i]);
            }
        }
    }
}

/// A set of function-call rules.
pub struct FunctionCallDetector {
    pub rules: Vec<FunctionCallRule>,
}

impl FunctionCallDetector {
    /// A detector over the given rules, as given.
    pub fn new(rules: Vec<FunctionCallRule>) -> (r: FunctionCallDetector)
        ensures
            r.rules@ == rules@,
    {
        FunctionCallDetector { rules }
    }

    /// The number of rules held.
    pub fn rule_count(&self) -> (r: usize)
        ensures
            r == self.rules@.len(),
    {
        self.rules.len()
    }

    /// Scans a file's text, line by line: a call of any of a rule's function
    /// names (the name on a word boundary, then an opening parenthesis)
    /// becomes an issue. The call sites are the regex crate's answer;
    /// whatever it answered, every issue that comes back renders one call of
    /// one of the held rules' function names in this file.
    pub fn scan_content(&self, file: &str, content: &str) -> (r: Vec<DetectionIssue>)
        ensures
            forall|k: int| 0 <= k < r@.len() ==> #[trigger] rendered_call(
                r@[k]@,
                view_fn_rules(self.rules@),
                file@,
            ),
    {
        let ghost rules = view_fn_rules(self.rules@);
        proof {
            lemma_view_fn_rules(self.rules@);
        }
        let lines = crate::text::lines_of(content);
        let mut issues: Vec<DetectionIssue> = Vec::new();
        let mut ri: usize = 0;
        while ri < self.rules.len()
            invariant
                rules == view_fn_rules(self.rules@),
                rules.len() == self.rules@.len(),
                forall|j: int| 0 <= j < rules.len() ==> rules[j] == self.rules@[j]@,
                forall|k: int| 0 <= k < issues@.len() ==> #[trigger] rendered_call(
                    issues@[k]@,
                    rules,
                    file@,
                ),
            decreases self.rules.len() - ri,
        {
            let rule = &self.rules[ri];
            let mut fi: usize = 0;
            while fi < rule.function_names.len()
                invariant
                    ri < self.rules@.len(),
                    *rule == self.rules@[ri as int],
                    rules == view_fn_rules(self.rules@),
                    rules.len() == self.rules@.len(),
                    forall|j: int| 0 <= j < rules.len() ==> rules[j] == self.rules@[j]@,
                    forall|k: int| 0 <= k < issues@.len() ==> #[trigger] rendered_call(
                        issues@[k]@,
                        rules,
                        file@,
                    ),
                decreases rule.function_names.len() - fi,
            {
                let func_name = rule.function_names[fi].as_str();
                let pattern = function_call_pattern(func_name);
                if let Some(re) = regex_new(pattern.as_str()) {
                    let mut li: usize = 0;
                    while li < lines.len()
                        invariant
                            ri < self.rules@.len(),
                            *rule == self.rules@[ri as int],
                            fi < rule.function_names@.len(),
                            rules == view_fn_rules(self.rules@),
                            rules.len() == self.rules@.len(),
                            forall|j: int| 0 <= j < rules.len() ==> rules[j]
                                == self.rules@[j]@,
                            forall|k: int| 0 <= k < issues@.len() ==> #[trigger] rendered_call(
                                issues@[k]@,
                                rules,
                                file@,
                            ),
                        decreases lines.len() - li,
                    {
                        let found = regex_find_all(&re, lines[li].as_str());
                        let mut mi: usize = 0;
                        while mi < found.len()
                            invariant
                                ri < self.rules@.len(),
                                *rule == self.rules@[ri as int],
                                fi < rule.function_names@.len(),
                                li < lines@.len(),
                                rules == view_fn_rules(self.rules@),
                                rules.len() == self.rules@.len(),
                                forall|j: int| 0 <= j < rules.len() ==> rules[j]
                                    == self.rules@[j]@,
                                forall|k: int|
                                    0 <= k < issues@.len() ==> #[trigger] rendered_call(
                                        issues@[k]@,
                                        rules,
                                        file@,
                                    ),
                            decreases found.len() - mi,
                        {
                            if li < usize::MAX {
                                let issue = self.call_issue(
                                    ri,
                                    fi,
                                    file,
                                    li + 1,
                                    found[mi].0,
                                    found[mi].1.as_str(),
                                );
                                let ghost pre = issues@;
                                let ghost iv = issue@;
                                proof {
                                    crate::text::lemma_view_strs(
                                        self.rules@[ri as int].function_names@,
                                    );
                                    assert(rules[ri as int].function_names[fi as int]
                                        == self.rules@[ri as int].function_names@[
                                        fi as int
                                    ]@);
                                    assert(iv == spec_call_issue(
                                        rules[ri as int],
                                        rules[ri as int].function_names[fi as int],
                                        file@,
                                        li as int + 1,
                                        found@[mi as int].0 as int,
                                        found@[mi as int].1@,
                                    ));
                                    assert(0 <= fi < rules[ri as int].function_names.len());
                                    assert(rendered_call(iv, rules, file@));
                                }
                                issues.push(issue);
                                proof {
                                    assert forall|k: int| 0 <= k < issues@.len() implies
                                        #[trigger] rendered_call(issues@[k]@, rules, file@)
                                        by {
                                        if k < pre.len() {
                                            assert(issues@[k] == pre[k]);
                                        } else {
                                            assert(issues@[k]@ == iv);
                                        }
                                    }
                                }
                            }
                            mi = mi + 1;
                        }
                        li = li + 1;
                    }
                }
                fi = fi + 1;
            }
            ri = ri + 1;
        }
        issues
    }

    /// Renders the issue for one call site of the rule at `ri`, found under
    /// its function name at `fi`: the templates with `{function}`, `{file}`,
    /// `{line}` and `{column}` replaced.
    pub fn call_issue(
        &self,
        ri: usize,
        fi: usize,
        file: &str,
        line: usize,
        column: usize,
        matched: &str,
    ) -> (r: DetectionIssue)
        requires
            ri < self.rules@.len(),
            fi < self.rules@[ri as int].function_names@.len(),
        ensures
            r@ == spec_call_issue(
                self.rules@[ri as int]@,
                self.rules@[ri as int].function_names@[fi as int]@,
                file@,
                line as int,
                column as int,
                matched@,
            ),
    {
        proof {
            reveal_strlit("{function}");
            reveal_strlit("{file}");
            reveal_strlit("{line}");
            reveal_strlit("{column}");
        }
        let rule = &self.rules[ri];
        let func_name = rule.function_names[fi].as_str();
        let line_text = crate::numbers::u64_to_dec(line as u64);
        let column_text = crate::numbers::u64_to_dec(column as u64);
        let m1 = crate::text::str_replace(
            rule.message_template.as_str(),
            "{function}",
            func_name,
        );
        let m2 = crate::text::str_replace(m1.as_str(), "{file}", file);
        let m3 = crate::text::str_replace(m2.as_str(), "{line}", line_text.as_str());
        let message = crate::text::str_replace(m3.as_str(), "{column}", column_text.as_str());
        let fix = match &rule.fix_template {
            Some(t) => {
                let f1 = crate::text::str_replace(t.as_str(), "{function}", func_name);
                Some(crate::text::str_replace(f1.as_str(), "{file}", file))
            },
            None => None,
        };
        let r = DetectionIssue {
            file: str_to_string(file),
            line,
            column,
            pattern_name: str_to_string(rule.name.as_str()),
            matched_text: str_to_string(matched),
            message,
            severity: str_to_string(rule.severity.as_str()),
            fix,
        };
        assert(r@ =~= spec_call_issue(
            self.rules@[ri as int]@,
            self.rules@[ri as int].function_names@[fi as int]@,
            file@,
            line as int,
            column as int,
            matched@,
        ));
        r
    }
}

/// The issue a function-call rule raises for one call site of one of its
/// function names.
pub open spec fn spec_call_issue(
    rule: FunctionCallRuleV,
    func_name: Seq<char>,
    file: Seq<char>,
    line: int,
    column: int,
    matched: Seq<char>,
) -> DetectionIssueV {
    DetectionIssueV {
        file,
        line,
        column,
        pattern_name: rule.name,
        matched_text: matched,
        message: spec_replace(
            spec_replace(
                spec_replace(
                    spec_replace(rule.message_template, "{function}"@, func_name),
                    "{file}"@,
                    file,
                ),
                "{line}"@,
                spec_udec(line as nat),
            ),
            "{column}"@,
            spec_udec(column as nat),
        ),
        severity: rule.severity,
        fix: match rule.fix_template {
            Some(t) => Some(
                spec_replace(spec_replace(t, "{function}"@, func_name), "{file}"@, file),
            ),
            None => None,
        },
    }
}

} // verus!

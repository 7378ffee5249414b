//! Security lint rules: hardcoded credentials, insecure C functions, broken
//! cryptography and certificate material, as rule tables for the generic
//! detectors, and a scanner that runs them against a file's text.

use vstd::prelude::*;

verus! {

use crate::detection::DetectionIssue;
use crate::detection::FunctionCallDetector;
use crate::detection::FunctionCallRule;
use crate::detection::PatternDetector;
use crate::detection::PatternRule;
use crate::detection::view_fn_rules;
use crate::detection::view_pattern_rules;
use crate::text::str_ends_with;
use crate::text::str_to_string;

fn pattern_rule(
    name: &str,
    pattern: &str,
    severity: &str,
    message_template: &str,
    fix_template: Option<&str>,
    case_sensitive: bool,
) -> (r: PatternRule)
    ensures
        r@.name == name@,
        r@.pattern == pattern@,
        r@.severity == severity@,
        r@.message_template == message_template@,
        r@.fix_template == (match fix_template {
            Some(f) => Some(f@),
            None => None,
        }),
        r@.case_sensitive == case_sensitive,
{
    PatternRule {
        name: str_to_string(name),
        pattern: str_to_string(pattern),
        severity: str_to_string(severity),
        message_template: str_to_string(message_template),
        fix_template: match fix_template {
            Some(f) => Some(str_to_string(f)),
            None => None,
        },
        case_sensitive,
    }
}

fn call_rule(
    name: &str,
    function_name: &str,
    severity: &str,
    message_template: &str,
    fix_template: &str,
) -> (r: FunctionCallRule)
    ensures
        r@.name == name@,
        r@.function_names =~= seq![function_name@],
        r@.severity == severity@,
        r@.message_template == message_template@,
        r@.fix_template == Some(fix_template@),
{
    let r = FunctionCallRule {
        name: str_to_string(name),
        function_names: vec![str_to_string(function_name)],
        severity: str_to_string(severity),
        message_template: str_to_string(message_template),
        fix_template: Some(str_to_string(fix_template)),
    };
    proof {
        crate::text::lemma_view_strs(r.function_names@);
    }
    r
}

/// The security rule tables.
pub struct SecurityRuleSet;

impl SecurityRuleSet {
    /// The rules that catch hardcoded credentials: provider access keys and
    /// tokens, private key blocks, connection strings carrying a password,
    /// and suspicious secret-bearing assignments.
    pub fn hardcoded_credentials_rules() -> (r: Vec<PatternRule>)
        ensures
            view_pattern_rules(r@).len() == 7,
            view_pattern_rules(r@)[0].name == "aws_key"@,
            view_pattern_rules(r@)[1].name == "stripe_key"@,
            view_pattern_rules(r@)[2].name == "github_token"@,
            view_pattern_rules(r@)[3].name == "jwt_token"@,
            view_pattern_rules(r@)[4].name == "private_key"@,
            view_pattern_rules(r@)[5].name == "connection_string_with_creds"@,
            view_pattern_rules(r@)[6].name == "suspicious_password_var"@,
    {
        let r = vec![
            pattern_rule(
                "aws_key",
                "(AKIA|AGPA|AIDA|AROA|AIPA|ANPA|ANVA|ASIA)[0-9A-Z]{16}",
                "critical",
                "🔐 AWS access key detected: {matched}. This is a hardcoded credential and must be removed immediately.",
                Some("os.getenv('AWS_ACCESS_KEY_ID')"),
                true,
            ),
            pattern_rule(
                "stripe_key",
                "(sk_live_|pk_live_|sk_test_|pk_test_)[A-Za-z0-9]{20,}",
                "critical",
                "🔐 Stripe API key detected: {matched}. This is a hardcoded credential and must be removed immediately.",
                Some("os.getenv('STRIPE_KEY')"),
                true,
            ),
            pattern_rule(
                "github_token",
                "(ghp_|gho_|ghu_|ghs_|ghr_)[A-Za-z0-9_]{36,255}",
                "critical",
                "🔐 GitHub token detected: {matched}. This is a hardcoded credential and must be removed immediately.",
                Some("os.getenv('GITHUB_TOKEN')"),
                true,
            ),
            pattern_rule(
                "jwt_token",
                "eyJ[A-Za-z0-9_-]+\\.[A-Za-z0-9_-]+\\.[A-Za-z0-9_-]+",
                "critical",
                "🔐 JWT token detected: {matched}. This is a hardcoded credential and must be removed immediately.",
                Some("os.getenv('JWT_TOKEN')"),
                true,
            ),
            pattern_rule(
                "private_key",
                "-----BEGIN.*PRIVATE KEY-----",
                "critical",
                "🔐 Private key block detected. This is a hardcoded credential and must be removed immediately.",
                Some("# Load from secure key management system"),
                false,
            ),
            pattern_rule(
                "connection_string_with_creds",
                "(mongodb|mysql|postgres|mssql)://[^:]+:[^@]+@",
                "critical",
                "🔐 Connection string with credentials detected: {matched}. Move credentials to environment variables.",
                Some("os.getenv('DATABASE_URL')"),
                false,
            ),
            pattern_rule(
                "suspicious_password_var",
                "(password|secret|api_key|token|auth)\\s*=\\s*['\"][^'\"]{8,}['\"]",
                "high",
                "⚠️  Suspicious variable assignment detected: {matched}. Review and move to environment variables.",
                Some("os.getenv('CREDENTIAL_NAME')"),
                false,
            ),
        ];
        proof {
            crate::detection::lemma_view_pattern_rules(r@);
        }
        r
    }

    /// The rules that catch the unsafe C string and memory functions.
    pub fn insecure_c_functions_rules() -> (r: Vec<FunctionCallRule>)
        ensures
            view_fn_rules(r@).len() == 7,
            view_fn_rules(r@)[0].name == "unsafe_gets"@,
            view_fn_rules(r@)[0].function_names =~= seq!["gets"@],
            view_fn_rules(r@)[1].name == "unsafe_strcpy"@,
            view_fn_rules(r@)[2].name == "unsafe_strcat"@,
            view_fn_rules(r@)[3].name == "unsafe_sprintf"@,
            view_fn_rules(r@)[4].name == "unsafe_scanf"@,
            view_fn_rules(r@)[5].name == "unsafe_strtok"@,
            view_fn_rules(r@)[6].name == "unsafe_memcpy"@,
    {
        let r = vec![
            call_rule(
                "unsafe_gets",
                "gets",
                "critical",
                "❌ Unsafe function '{function}()' detected at {file}:{line}. Replace with fgets() for bounds checking.",
                "fgets",
            ),
            call_rule(
                "unsafe_strcpy",
                "strcpy",
                "high",
                "❌ Unsafe function '{function}()' detected at {file}:{line}. Replace with strcpy_s() or snprintf() for bounds checking.",
                "snprintf",
            ),
            call_rule(
                "unsafe_strcat",
                "strcat",
                "high",
                "❌ Unsafe function '{function}()' detected at {file}:{line}. Replace with strcat_s() or snprintf() for bounds checking.",
                "snprintf",
            ),
            call_rule(
                "unsafe_sprintf",
                "sprintf",
                "high",
                "❌ Unsafe function '{function}()' detected at {file}:{line}. Replace with snprintf() for bounds checking.",
                "snprintf",
            ),
            call_rule(
                "unsafe_scanf",
                "scanf",
                "high",
                "❌ Unsafe function '{function}()' detected at {file}:{line}. Use fgets() + sscanf() or add width specifiers.",
                "fgets",
            ),
            call_rule(
                "unsafe_strtok",
                "strtok",
                "high",
                "❌ Unsafe function '{function}()' detected at {file}:{line}. Replace with strtok_s() or strtok_r() for thread safety.",
                "strtok_r",
            ),
            call_rule(
                "unsafe_memcpy",
                "memcpy",
                "medium",
                "⚠️  Function '{function}()' detected at {file}:{line}. Consider using memcpy_s() for bounds checking.",
                "memcpy_s",
            ),
        ];
        proof {
            crate::detection::lemma_view_fn_rules(r@);
        }
        r
    }

    /// The rules that catch broken or deprecated cryptography.
    pub fn insecure_crypto_rules() -> (r: Vec<PatternRule>)
        ensures
            view_pattern_rules(r@).len() == 5,
            view_pattern_rules(r@)[0].name == "md5_usage"@,
            view_pattern_rules(r@)[1].name == "sha1_usage"@,
            view_pattern_rules(r@)[2].name == "des_usage"@,
            view_pattern_rules(r@)[3].name == "rc4_usage"@,
            view_pattern_rules(r@)[4].name == "blowfish_usage"@,
    {
        let r = vec![
            pattern_rule(
                "md5_usage",
                "\\b(MD5|md5)\\b",
                "high",
                "🚫 MD5 hash algorithm detected: {matched}. MD5 is cryptographically broken. Use SHA-256 or stronger.",
                Some("SHA256"),
                false,
            ),
            pattern_rule(
                "sha1_usage",
                "\\b(SHA-?1|sha-?1)\\b",
                "high",
                "🚫 SHA-1 algorithm detected: {matched}. SHA-1 is deprecated. Use SHA-256 or stronger.",
                Some("SHA256"),
                false,
            ),
            pattern_rule(
                "des_usage",
                "\\b(DES|des)\\b",
                "high",
                "🚫 DES encryption detected: {matched}. DES is insecure. Use AES-256 or stronger.",
                Some("AES"),
                false,
            ),
            pattern_rule(
                "rc4_usage",
                "\\b(RC4|rc4)\\b",
                "high",
                "🚫 RC4 cipher detected: {matched}. RC4 is broken. Use AES-GCM or ChaCha20.",
                Some("ChaCha20"),
                false,
            ),
            pattern_rule(
                "blowfish_usage",
                "\\b(Blowfish|blowfish)\\b",
                "medium",
                "⚠️  Blowfish cipher detected: {matched}. Consider using AES-256 for better security.",
                Some("AES"),
                false,
            ),
        ];
        proof {
            crate::detection::lemma_view_pattern_rules(r@);
        }
        r
    }

    /// The rules that point out certificate material worth reviewing.
    pub fn certificate_rules() -> (r: Vec<PatternRule>)
        ensures
            view_pattern_rules(r@).len() == 2,
            view_pattern_rules(r@)[0].name == "pem_certificate"@,
            view_pattern_rules(r@)[1].name == "self_signed_cert"@,
    {
        let r = vec![
            pattern_rule(
                "pem_certificate",
                "-----BEGIN CERTIFICATE-----",
                "info",
                "ℹ️  PEM certificate block detected. Verify certificate validity and key strength.",
                None,
                true,
            ),
            pattern_rule(
                "self_signed_cert",
                "self.?signed|self_signed",
                "info",
                "ℹ️  Self-signed certificate detected. Ensure this is intentional and only used for development/testing.",
                None,
                false,
            ),
        ];
        proof {
            crate::detection::lemma_view_pattern_rules(r@);
        }
        r
    }
}

/// The four detectors of the security rules, compiled.
pub struct SecurityScanner {
    pub credentials_detector: PatternDetector,
    pub c_functions_detector: FunctionCallDetector,
    pub crypto_detector: PatternDetector,
    pub certificate_detector: PatternDetector,
}

impl SecurityScanner {
    /// Compiles the four rule tables; a rule whose pattern the regex crate
    /// rejects fails the construction with that pattern named.
    pub fn new() -> (r: Result<SecurityScanner, String>) {
        let credentials_detector = match PatternDetector::new(
            SecurityRuleSet::hardcoded_credentials_rules(),
        ) {
            Ok(d) => d,
            Err(e) => {
                return Err(e);
            },
        };
        let c_functions_detector = FunctionCallDetector::new(
            SecurityRuleSet::insecure_c_functions_rules(),
        );
        let crypto_detector = match PatternDetector::new(
            SecurityRuleSet::insecure_crypto_rules(),
        ) {
            Ok(d) => d,
            Err(e) => {
                return Err(e);
            },
        };
        let certificate_detector = match PatternDetector::new(
            SecurityRuleSet::certificate_rules(),
        ) {
            Ok(d) => d,
            Err(e) => {
                return Err(e);
            },
        };
        Ok(
            SecurityScanner {
                credentials_detector,
                c_functions_detector,
                crypto_detector,
                certificate_detector,
            },
        )
    }

    /// Scans one file's text under its file name: the credential, crypto and
    /// certificate rules always run; the unsafe C function rules run only on
    /// C sources and headers. Every issue that comes back renders one match
    /// or call of one of the scanner's rules in this file.
    pub fn scan_content(&self, file_name: &str, content: &str) -> (r: Vec<DetectionIssue>)
        ensures
            forall|k: int| 0 <= k < r@.len() ==> #[trigger] security_scan_issue(
                r@[k]@,
                self,
                file_name@,
            ),
    {
        let mut all_issues = self.credentials_detector.scan_content(file_name, content);
        proof {
            lemma_all_security(all_issues@, self, file_name@);
        }
        let crypto = self.crypto_detector.scan_content(file_name, content);
        append_security(self, &mut all_issues, crypto, Ghost(file_name@));
        let certs = self.certificate_detector.scan_content(file_name, content);
        append_security(self, &mut all_issues, certs, Ghost(file_name@));
        if str_ends_with(file_name, ".c") || str_ends_with(file_name, ".h") {
            let calls = self.c_functions_detector.scan_content(file_name, content);
            append_security(self, &mut all_issues, calls, Ghost(file_name@));
        }
        all_issues
    }
}

/// Whether the issue is the rendering of one match or call of one of the
/// scanner's rule tables in the given file.
pub open spec fn security_scan_issue(
    iv: crate::detection::DetectionIssueV,
    s: &SecurityScanner,
    file: Seq<char>,
) -> bool {
    ||| crate::detection::rendered_match(
        iv,
        crate::detection::view_pattern_rules_of(s.credentials_detector.patterns@),
        file,
    )
    ||| crate::detection::rendered_call(
        iv,
        crate::detection::view_fn_rules(s.c_functions_detector.rules@),
        file,
    )
    ||| crate::detection::rendered_match(
        iv,
        crate::detection::view_pattern_rules_of(s.crypto_detector.patterns@),
        file,
    )
    ||| crate::detection::rendered_match(
        iv,
        crate::detection::view_pattern_rules_of(s.certificate_detector.patterns@),
        file,
    )
}

proof fn lemma_all_security(
    issues: Seq<DetectionIssue>,
    s: &SecurityScanner,
    file: Seq<char>,
)
    requires
        forall|k: int|
            0 <= k < issues.len() ==> (crate::detection::rendered_match(
                #[trigger] issues[k]@,
                crate::detection::view_pattern_rules_of(s.credentials_detector.patterns@),
                file,
            ) || crate::detection::rendered_call(
                issues[k]@,
                crate::detection::view_fn_rules(s.c_functions_detector.rules@),
                file,
            ) || crate::detection::rendered_match(
                issues[k]@,
                crate::detection::view_pattern_rules_of(s.crypto_detector.patterns@),
                file,
            ) || crate::detection::rendered_match(
                issues[k]@,
                crate::detection::view_pattern_rules_of(s.certificate_detector.patterns@),
                file,
            )),
    ensures
        forall|k: int| 0 <= k < issues.len() ==> #[trigger] security_scan_issue(
            issues[k]@,
            s,
            file,
        ),
{
}

fn append_security(
    s: &SecurityScanner,
    all_issues: &mut Vec<DetectionIssue>,
    more: Vec<DetectionIssue>,
    Ghost(file): Ghost<Seq<char>>,
)
    requires
        forall|k: int| 0 <= k < old(all_issues)@.len() ==> #[trigger] security_scan_issue(
            old(all_issues)@[k]@,
            s,
            file,
        ),
        forall|k: int|
            0 <= k < more@.len() ==> (crate::detection::rendered_match(
                #[trigger] more@[k]@,
                crate::detection::view_pattern_rules_of(s.credentials_detector.patterns@),
                file,
            ) || crate::detection::rendered_call(
                more@[k]@,
                crate::detection::view_fn_rules(s.c_functions_detector.rules@),
                file,
            ) || crate::detection::rendered_match(
                more@[k]@,
                crate::detection::view_pattern_rules_of(s.crypto_detector.patterns@),
                file,
            ) || crate::detection::rendered_match(
                more@[k]@,
                crate::detection::view_pattern_rules_of(s.certificate_detector.patterns@),
                file,
            )),
    ensures
        forall|k: int| 0 <= k < final(all_issues)@.len() ==> #[trigger] security_scan_issue(
            final(all_issues)@[k]@,
            s,
            file,
        ),
{
    let ghost pre = all_issues@;
    let ghost morev = more@;
    let mut more = more;
    all_issues.append(&mut more);
    proof {
        assert forall|k: int| 0 <= k < all_issues@.len() implies #[trigger] security_scan_issue(
            all_issues@[k]@,
            s,
            file,
        ) by {
            if k < pre.len() {
                assert(all_issues@[k] == pre[k]);
            } else {
                assert(all_issues@[k] == morev[k - pre.len()]);
            }
        }
    }
}

} // verus!

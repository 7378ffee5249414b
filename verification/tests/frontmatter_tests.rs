//! Markdown frontmatter validation: required fields, field formats, and the
//! extra demands on decision-record files.

use project_lint::markdown_frontmatter::MarkdownFrontmatterRuleSet;

#[test]
fn test_valid_frontmatter() {
    let content = "---\ntitle: \"Test Document\"\nsynopsis: \"A test document\"\ntags: [\"test\", \"example\"]\n---\n# Content";

    let result = MarkdownFrontmatterRuleSet::validate_frontmatter(content, "test.md");
    assert!(result.is_ok());
}

#[test]
fn test_missing_title() {
    let content = "---\nsynopsis: \"A test document\"\ntags: [\"test\"]\n---\n# Content";

    let result = MarkdownFrontmatterRuleSet::validate_frontmatter(content, "test.md");
    assert!(result.is_err());
    let errors = result.unwrap_err();
    assert!(errors.iter().any(|e| e.contains("title")));
}

#[test]
fn test_valid_adr_id() {
    assert!(MarkdownFrontmatterRuleSet::is_valid_adr_id("20251126001"));
    assert!(!MarkdownFrontmatterRuleSet::is_valid_adr_id("2025112600"));
    assert!(!MarkdownFrontmatterRuleSet::is_valid_adr_id("202511260001"));
}

#[test]
fn test_valid_date() {
    assert!(MarkdownFrontmatterRuleSet::is_valid_date("2025-11-26"));
    assert!(!MarkdownFrontmatterRuleSet::is_valid_date("2025/11/26"));
    assert!(!MarkdownFrontmatterRuleSet::is_valid_date("11-26-2025"));
}

#[test]
fn test_valid_semver() {
    assert!(MarkdownFrontmatterRuleSet::is_valid_semver("1.0.0"));
    assert!(MarkdownFrontmatterRuleSet::is_valid_semver("2.3.4"));
    assert!(!MarkdownFrontmatterRuleSet::is_valid_semver("1.0"));
    assert!(!MarkdownFrontmatterRuleSet::is_valid_semver("1.0.0.0"));
}

#[test]
fn test_adr_file_validation() {
    let content = "---\ntitle: \"Test ADR\"\nsynopsis: \"A test ADR\"\ntags: [\"adr\"]\nadr-id: \"20251126001\"\nstatus: \"accepted\"\ndate-created: \"2025-11-26\"\ndate-updated: \"2025-11-26\"\nversion: \"1.0.0\"\n---\n# Content";

    let result =
        MarkdownFrontmatterRuleSet::validate_frontmatter(content, "internal-docs/adr/test.md");
    assert!(result.is_ok());
}

#[test]
fn test_missing_fences() {
    let no_open = MarkdownFrontmatterRuleSet::validate_frontmatter("# Heading", "test.md");
    let errors = no_open.unwrap_err();
    assert_eq!(errors.len(), 1);
    assert!(errors[0].contains("Missing frontmatter block"));

    let no_close =
        MarkdownFrontmatterRuleSet::validate_frontmatter("---\ntitle: x\n", "test.md");
    let errors2 = no_close.unwrap_err();
    assert_eq!(errors2.len(), 1);
    assert!(errors2[0].contains("Incomplete frontmatter block"));
}

#[test]
fn test_adr_file_missing_identity() {
    let content = "---\ntitle: \"Test ADR\"\nsynopsis: \"A test ADR\"\ntags: [\"adr\"]\n---\n# Content";
    let result =
        MarkdownFrontmatterRuleSet::validate_frontmatter(content, "internal-docs/adr/test.md");
    let errors = result.unwrap_err();
    assert!(errors.iter().any(|e| e.contains("adr-id")));
    assert!(errors.iter().any(|e| e.contains("status")));
}

#[test]
fn test_invalid_field_formats() {
    let content = "---\ntitle: \"T\"\nsynopsis: \"S\"\ntags: [\"a\"]\nstatus: bogus\ndate-created: 2025/11/26\nversion: 1.0\n---\n";
    let result = MarkdownFrontmatterRuleSet::validate_frontmatter(content, "test.md");
    let errors = result.unwrap_err();
    assert!(errors.iter().any(|e| e.contains("Invalid status 'bogus'")));
    assert!(errors.iter().any(|e| e.contains("Invalid date format '2025/11/26'")));
    assert!(errors.iter().any(|e| e.contains("Invalid version format '1.0'")));
}

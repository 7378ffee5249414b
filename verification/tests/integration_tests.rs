//! The wildcard matcher and the script-file test, both as the library
//! implements them and as the plain definition states them.

use project_lint::patterns;

#[test]
fn test_pattern_matching() {
    fn matches_pattern(file_name: &str, pattern: &str) -> bool {
        if pattern.starts_with('*') && pattern.ends_with('*') && pattern.len() >= 2 {
            file_name.contains(&pattern[1..pattern.len() - 1])
        } else if pattern.starts_with('*') {
            file_name.ends_with(&pattern[1..])
        } else if pattern.ends_with('*') {
            file_name.starts_with(&pattern[..pattern.len() - 1])
        } else {
            file_name == pattern
        }
    }

    assert!(matches_pattern("test.sh", "*.sh"));
    assert!(matches_pattern("script.py", "*.py"));
    assert!(matches_pattern("main.rs", "*.rs"));
    assert!(!matches_pattern("test.txt", "*.sh"));
    assert!(matches_pattern("test_file", "*file"));
    assert!(matches_pattern("file_test", "file*"));

    // The library's verified matcher agrees on the same cases.
    assert!(patterns::matches_pattern("test.sh", "*.sh"));
    assert!(patterns::matches_pattern("script.py", "*.py"));
    assert!(patterns::matches_pattern("main.rs", "*.rs"));
    assert!(!patterns::matches_pattern("test.txt", "*.sh"));
    assert!(patterns::matches_pattern("test_file", "*file"));
    assert!(patterns::matches_pattern("file_test", "file*"));
    assert!(patterns::matches_pattern("any_file_at_all", "*"));
    assert!(patterns::matches_pattern("middle", "*idd*"));
    assert!(!patterns::matches_pattern("middle", "*xyz*"));
}

#[test]
fn test_script_file_detection() {
    fn is_script_file(file_name: &str) -> bool {
        let script_extensions = [".sh", ".py", ".js", ".ts", ".rb", ".pl", ".php"];
        script_extensions.iter().any(|ext| file_name.ends_with(ext))
    }

    assert!(is_script_file("script.sh"));
    assert!(is_script_file("main.py"));
    assert!(is_script_file("app.js"));
    assert!(is_script_file("component.ts"));
    assert!(!is_script_file("document.txt"));
    assert!(!is_script_file("image.jpg"));

    // The library's verified test agrees on the same cases.
    assert!(patterns::is_script_file("script.sh"));
    assert!(patterns::is_script_file("main.py"));
    assert!(patterns::is_script_file("app.js"));
    assert!(patterns::is_script_file("component.ts"));
    assert!(!patterns::is_script_file("document.txt"));
    assert!(!patterns::is_script_file("image.jpg"));
}

#[test]
fn test_ignored_paths() {
    let ignored = vec!["node_modules/".to_string(), "*.tmp".to_string()];
    assert!(patterns::should_ignore_path("node_modules/pkg/index.js", &ignored));
    assert!(patterns::should_ignore_path("build/cache.tmp", &ignored));
    assert!(!patterns::should_ignore_path("src/main.rs", &ignored));
}

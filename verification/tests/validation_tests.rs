//! Configuration-file validation: the compiler, lint, style and manifest
//! checks on plain text.

use project_lint::validation::ConfigValidationRuleSet;

#[test]
fn test_tsconfig_strict_mode() {
    let content = "{ \"compilerOptions\": { \"strict\": true } }";
    let result = ConfigValidationRuleSet::validate_tsconfig(content);
    assert!(result.is_ok());
    let violations = result.unwrap();
    assert!(violations.iter().all(|v| !v.message.contains("strict")));
}

#[test]
fn test_tsconfig_missing_strict() {
    let content = "{ \"compilerOptions\": {} }";
    let result = ConfigValidationRuleSet::validate_tsconfig(content);
    assert!(result.is_ok());
    let violations = result.unwrap();
    assert!(violations.iter().any(|v| v.message.contains("strict")));
}

#[test]
fn test_tsconfig_ambiguous_alias() {
    let content = "{ \"compilerOptions\": { \"paths\": { \"@/*\": [\"./src/*\"] } } }";
    let result = ConfigValidationRuleSet::validate_tsconfig(content);
    assert!(result.is_ok());
    let violations = result.unwrap();
    assert!(violations.iter().any(|v| v.message.contains("@/*")));
}

#[test]
fn test_eslint_config_extension() {
    let content = "export default {}";
    let result = ConfigValidationRuleSet::validate_eslint_config(content, "eslint.config.ts");
    assert!(result.is_ok());
    let violations = result.unwrap();
    assert!(violations.iter().any(|v| v.message.contains(".mts")));
}

#[test]
fn test_eslint_config_package() {
    let content = "export default {}";
    let result = ConfigValidationRuleSet::validate_eslint_config(content, "eslint.config.mts");
    assert!(result.is_ok());
    let violations = result.unwrap();
    assert!(violations.iter().any(|v| v.message.contains("@job-aide")));
}

#[test]
fn test_tailwind_missing_content() {
    let content = "export default { theme: { extend: {} } }";
    let result = ConfigValidationRuleSet::validate_tailwind_config(content, "tailwind.config.ts");
    assert!(result.is_ok());
    let violations = result.unwrap();
    assert!(violations.iter().any(|v| v.message.contains("content")));
}

#[test]
fn test_package_json_missing_type() {
    let content = "{ \"name\": \"test\" }";
    let result = ConfigValidationRuleSet::validate_package_json(content);
    assert!(result.is_ok());
    let violations = result.unwrap();
    assert!(violations.iter().any(|v| v.message.contains("type")));
}

#[test]
fn test_package_json_npm_commands() {
    let content = "{ \"scripts\": { \"build\": \"npm run tsc\" } }";
    let result = ConfigValidationRuleSet::validate_package_json(content);
    assert!(result.is_ok());
    let violations = result.unwrap();
    assert!(violations.iter().any(|v| v.message.contains("npm")));
}

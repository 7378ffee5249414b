//! The JSON model: parsing through the real serde_json, lookups, field
//! rewriting, and the verified serializer.

use project_lint::errors::ProjectLintError;
use project_lint::json::{parse_json, to_json_string, JsonValue};

#[test]
fn test_parse_and_lookup() {
    let v = parse_json("{\"a\": \"one\", \"b\": {\"c\": \"two\"}, \"n\": 5}")
        .expect("well-formed JSON parses");
    assert_eq!(v.get_str("a"), Some("one".to_string()));
    assert_eq!(v.get_str("missing"), None);
    let inner = v.get("b").expect("the nested object is there");
    assert_eq!(inner.get_str("c"), Some("two".to_string()));
    // A non-string field is not a string lookup hit.
    assert_eq!(v.get_str("n"), None);
}

#[test]
fn test_parse_rejects_malformed() {
    assert!(parse_json("{oops").is_none());
    assert!(parse_json("").is_none());
}

#[test]
fn test_with_str_field_rewrites() {
    let v = parse_json("{\"input\": \"npm i\", \"keep\": true}").unwrap();
    let rewritten = v.with_str_field("input", "pnpm i");
    assert_eq!(rewritten.get_str("input"), Some("pnpm i".to_string()));
    // The original value is untouched and other fields survive.
    assert_eq!(v.get_str("input"), Some("npm i".to_string()));
    assert!(matches!(rewritten.get("keep"), Some(JsonValue::Bool(true))));
}

#[test]
fn test_serializer_round_trip() {
    let text = "{\"a\":\"x\",\"list\":[1,true,null],\"s\":\"q\\\"uote\"}";
    let v = parse_json(text).expect("well-formed JSON parses");
    let printed = to_json_string(&v);
    let reparsed = parse_json(&printed).expect("the printed text parses again");
    assert_eq!(reparsed.get_str("a"), Some("x".to_string()));
    assert_eq!(reparsed.get_str("s"), Some("q\"uote".to_string()));
}

#[test]
fn test_serializer_escapes() {
    let v = JsonValue::Obj(vec![(
        "m".to_string(),
        JsonValue::Str("line\nbreak\tand \"quote\"".to_string()),
    )]);
    assert_eq!(
        to_json_string(&v),
        "{\"m\":\"line\\nbreak\\tand \\\"quote\\\"\"}"
    );
}

#[test]
fn test_error_messages() {
    let e = ProjectLintError::Parse("bad payload".to_string());
    assert_eq!(e.message(), "Parse error: bad payload");
    let g = ProjectLintError::Git("no repository".to_string());
    assert_eq!(g.message(), "Git error: no repository");
}

use magi_github_plugin::args::Config;
use magi_github_plugin::error::ToolError;
use magi_github_plugin::json::{decode_response, encode_issue, finish, quote_json};
use magi_github_plugin::plugin::{config_schema, describe, init};
use magi_github_plugin::text::{replace_spaces, starts_with, trim_double_quotes};
use magi_github_plugin::tool::Tool;

#[test]
fn descriptor_lists_every_routed_tool() {
    let d = describe();
    assert_eq!(d.name, "github");
    assert_eq!(d.version, "0.1.0");
    assert_eq!(d.label, "mcp");
    assert_eq!(d.tools.len(), 8);
    for t in &d.tools {
        assert_eq!(Tool::from_name(t.name()), Some(*t));
    }
    assert_eq!(Tool::from_name("list_repos"), Some(Tool::ListRepos));
    assert_eq!(Tool::from_name("search_code"), Some(Tool::SearchCode));
    assert_eq!(Tool::from_name("List_repos"), None);
    assert_eq!(Tool::GetPr.description(), "Get pull request details");
}

#[test]
fn schema_requires_token() {
    let fields = config_schema();
    assert_eq!(fields.len(), 2);
    assert_eq!(fields[0].name, "github_token");
    assert!(fields[0].required);
    assert_eq!(fields[1].name, "default_owner");
    assert!(!fields[1].required);
}

#[test]
fn init_rejects_missing_token() {
    let none = Config { github_token: None, default_owner: Some("acme".to_string()) };
    let e = init(&none).unwrap_err();
    assert_eq!(e, ToolError::MissingToken);
    assert_eq!(e.message(), "github_token is required");
    let some = Config { github_token: Some("t".to_string()), default_owner: None };
    assert_eq!(init(&some), Ok(()));
}

#[test]
fn response_is_passed_through() {
    let x = "{\"id\":7,\"items\":[1,\"two\",null],\"ok\":true}";
    let expected: serde_json::Value = serde_json::from_str(x).unwrap();
    assert_eq!(finish(Ok(x.as_bytes().to_vec())), Ok(expected.clone()));
    assert_eq!(decode_response(x.as_bytes()), Ok(expected));
}

#[test]
fn transport_failure_is_an_error_object() {
    let e = finish(Err("connection refused".to_string())).unwrap_err();
    assert_eq!(e, ToolError::Transport("connection refused".to_string()));
    assert_eq!(e.message(), "connection refused");
}

#[test]
fn non_json_body_is_an_error_object() {
    let e = finish(Ok(b"<html>oops</html>".to_vec())).unwrap_err();
    match &e {
        ToolError::InvalidJson(m) => assert!(m.starts_with("JSON parse error: ")),
        other => panic!("unexpected {other:?}"),
    }
    assert!(e.message().len() > "JSON parse error: ".len());
}

#[test]
fn json_quoting() {
    assert_eq!(quote_json("a\"b"), "\"a\\\"b\"");
    assert_eq!(quote_json(""), "\"\"");
    assert_eq!(quote_json("\\ \t\r\u{8}\u{c}\u{1}\u{1f}\u{7f}é"), "\"\\\\ \\t\\r\\b\\f\\u0001\\u001f\u{7f}é\"");
    assert_eq!(encode_issue("T", "B"), "{\"body\":\"B\",\"title\":\"T\"}");
}

#[test]
fn text_helpers() {
    assert_eq!(replace_spaces("foo bar"), "foo+bar");
    assert_eq!(replace_spaces(""), "");
    assert_eq!(trim_double_quotes("\"42\""), "42");
    assert_eq!(trim_double_quotes("\"\"\""), "");
    assert_eq!(trim_double_quotes("a\"b"), "a\"b");
    assert!(starts_with("https://x", "https://"));
    assert!(!starts_with("http://x", "https://"));
}

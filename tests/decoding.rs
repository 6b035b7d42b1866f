use nerve::error::GeneratorError;
use nerve::generator::{chat_response, decode_tool_calls, openai_usage};
use nerve::invocation::{decode_tool_call, invocation_from_arguments};
use nerve::chat::Usage;
use nerve::text::{contains, starts_with, strip_one_quote};

fn attr(inv: &nerve::invocation::Invocation, key: &str) -> Option<String> {
    inv.attributes
        .as_ref()
        .and_then(|a| a.iter().rev().find(|(k, _)| k == key).map(|(_, v)| v.clone()))
}

#[test]
fn payload_and_attribute_split() {
    let inv = decode_tool_call("foo", r#"{"payload":"hello","extra":"world"}"#).unwrap();
    assert_eq!(inv.action, "foo");
    assert_eq!(inv.payload, Some("hello".to_string()));
    let attrs = inv.attributes.clone().unwrap();
    assert_eq!(attrs.len(), 1);
    assert_eq!(attr(&inv, "extra"), Some("world".to_string()));
}

#[test]
fn only_payload_gives_no_attributes() {
    let inv = decode_tool_call("foo", r#"{"payload":"x"}"#).unwrap();
    assert_eq!(inv.payload, Some("x".to_string()));
    assert!(inv.attributes.is_none());
}

#[test]
fn no_payload_key_gives_no_payload() {
    let inv = decode_tool_call("bar", r#"{"path":"/tmp","mode":"r"}"#).unwrap();
    assert!(inv.payload.is_none());
    assert_eq!(attr(&inv, "path"), Some("/tmp".to_string()));
    assert_eq!(attr(&inv, "mode"), Some("r".to_string()));
}

#[test]
fn one_quote_stripped_from_each_end() {
    let inv = decode_tool_call("foo", r#"{"payload":"\"\"quoted\"\""}"#).unwrap();
    assert_eq!(inv.payload, Some("\"quoted\"".to_string()));
}

#[test]
fn non_string_values_are_json_text() {
    let inv = decode_tool_call("foo", r#"{"n":5,"flag":true,"list":[1,2]}"#).unwrap();
    assert_eq!(attr(&inv, "n"), Some("5".to_string()));
    assert_eq!(attr(&inv, "flag"), Some("true".to_string()));
    assert_eq!(attr(&inv, "list"), Some("[1,2]".to_string()));
}

#[test]
fn malformed_arguments_are_unparseable() {
    assert_eq!(decode_tool_call("foo", "not json"), Err(GeneratorError::Unparseable));
    assert_eq!(decode_tool_call("foo", "[1,2]"), Err(GeneratorError::Unparseable));
}

#[test]
fn later_pair_overrides_earlier() {
    let pairs = vec![
        ("a".to_string(), "1".to_string()),
        ("a".to_string(), "2".to_string()),
    ];
    let inv = invocation_from_arguments("x", &pairs);
    assert_eq!(attr(&inv, "a"), Some("2".to_string()));
}

#[test]
fn strip_quotes_examples() {
    assert_eq!(strip_one_quote("\"abc\""), "abc");
    assert_eq!(strip_one_quote("\"abc"), "abc");
    assert_eq!(strip_one_quote("abc\""), "abc");
    assert_eq!(strip_one_quote("\""), "");
    assert_eq!(strip_one_quote(""), "");
    assert_eq!(strip_one_quote("\"\"\"\""), "\"\"");
}

#[test]
fn substring_helpers() {
    assert!(contains("hello world", "o w"));
    assert!(!contains("hello", "world"));
    assert!(contains("abc", ""));
    assert!(starts_with("https://x", "https://"));
    assert!(!starts_with("http", "https://"));
}

#[test]
fn tool_calls_decode_in_order() {
    let calls = vec![
        ("first".to_string(), Some(r#"{"payload":"1"}"#.to_string())),
        ("second".to_string(), None),
    ];
    let v = decode_tool_calls(&calls).unwrap();
    assert_eq!(v.len(), 2);
    assert_eq!(v[0].action, "first");
    assert_eq!(v[0].payload, Some("1".to_string()));
    assert_eq!(v[1].action, "second");
    assert!(v[1].payload.is_none() && v[1].attributes.is_none());
}

#[test]
fn one_bad_call_fails_the_answer() {
    let calls = vec![
        ("first".to_string(), Some(r#"{"payload":"1"}"#.to_string())),
        ("second".to_string(), Some("{".to_string())),
    ];
    assert!(matches!(chat_response(None, &calls, None), Err(GeneratorError::Unparseable)));
}

#[test]
fn response_content_and_usage() {
    let usage = openai_usage(Some(10), None);
    assert_eq!(usage, Some(Usage { input_tokens: 10, output_tokens: 0 }));
    assert_eq!(openai_usage(None, Some(3)), None);
    let r = chat_response(None, &vec![], usage).unwrap();
    assert_eq!(r.content, "");
    assert!(r.invocations.is_empty());
    assert_eq!(r.usage, usage);
}

use aicli::json::{get_field, JsonValue};
use aicli::response::{approx_tokens, classify_response, handle_response, respond, Outcome};
use aicli::text::decimal;

fn s(t: &str) -> JsonValue {
    JsonValue::Str(t.to_string())
}

fn obj(fields: Vec<(&str, JsonValue)>) -> JsonValue {
    JsonValue::Object(fields.into_iter().map(|(k, v)| (k.to_string(), v)).collect())
}

fn reply_body(text: &str) -> JsonValue {
    obj(vec![("choices", JsonValue::Array(vec![obj(vec![("message", obj(vec![("content", s(text))]))])]))])
}

#[test]
fn reply_is_printed_alone() {
    let v = reply_body("Paris");
    let r = respond(&v, "What is the capital of France?", String::new());
    assert_eq!(r.lines, vec!["Paris".to_string()]);
    assert!(!r.clear_api_key);
    assert_eq!(r.exit_code, 0);
}

#[test]
fn auth_failure_clears_key_and_fails() {
    let v = obj(vec![("error", obj(vec![("code", s("401"))]))]);
    assert!(matches!(classify_response(&v), Outcome::AuthFailure));
    let r = respond(&v, "hello", String::new());
    assert_eq!(
        r.lines,
        vec![
            "Authentication failed. API key has been cleared.".to_string(),
            "Please run the tool again to enter a new API key.".to_string(),
        ]
    );
    assert!(r.clear_api_key);
    assert_eq!(r.exit_code, 1);
}

#[test]
fn numeric_401_is_not_an_auth_failure() {
    let v = obj(vec![("error", obj(vec![("code", JsonValue::Number("401".to_string()))]))]);
    assert!(matches!(classify_response(&v), Outcome::Diagnostic));
}

#[test]
fn other_errors_dump_the_body() {
    let v = obj(vec![("error", obj(vec![("code", s("500")), ("message", s("boom"))]))]);
    let input = "abcdefghijklmnopqrstuvw";
    let r = respond(&v, input, "{\n  \"error\": {}\n}".to_string());
    assert_eq!(r.lines.len(), 3);
    assert_eq!(r.lines[0], "Sent approximately 5 tokens");
    assert_eq!(r.lines[1], "\nRaw API Response:\n");
    assert_eq!(r.lines[2], "{\n  \"error\": {}\n}");
    assert!(!r.clear_api_key);
    assert_eq!(r.exit_code, 0);
}

#[test]
fn empty_choices_fall_back_to_the_dump() {
    let v = obj(vec![("choices", JsonValue::Array(vec![]))]);
    assert!(matches!(classify_response(&v), Outcome::Diagnostic));
}

#[test]
fn non_string_content_is_not_a_reply() {
    let v = obj(vec![("choices", JsonValue::Array(vec![obj(vec![("message", obj(vec![("content", JsonValue::Null)]))])]))]);
    assert!(matches!(classify_response(&v), Outcome::Diagnostic));
}

#[test]
fn reply_wins_over_error() {
    let mut v = reply_body("ok");
    if let JsonValue::Object(f) = &mut v {
        f.push(("error".to_string(), obj(vec![("code", s("401"))])));
    }
    assert!(matches!(classify_response(&v), Outcome::Reply(t) if t == "ok"));
}

#[test]
fn token_estimate_counts_utf8_bytes() {
    assert_eq!(approx_tokens(""), 0);
    assert_eq!(approx_tokens("abc"), 0);
    assert_eq!(approx_tokens("abcd"), 1);
    assert_eq!(approx_tokens("h\u{e9}llo w\u{f6}rld"), 3);
}

#[test]
fn decimal_renders_numbers() {
    assert_eq!(decimal(0), "0");
    assert_eq!(decimal(7), "7");
    assert_eq!(decimal(10), "10");
    assert_eq!(decimal(16384), "16384");
    assert_eq!(decimal(usize::MAX), usize::MAX.to_string());
}

#[test]
fn field_lookup_takes_the_first_member() {
    let v = obj(vec![("a", s("1")), ("b", s("2")), ("a", s("3"))]);
    assert!(matches!(get_field(&v, "a"), Some(JsonValue::Str(t)) if t == "1"));
    assert!(matches!(get_field(&v, "b"), Some(JsonValue::Str(t)) if t == "2"));
    assert!(get_field(&v, "c").is_none());
    assert!(get_field(&s("x"), "a").is_none());
}

#[test]
fn handled_diagnostic_renders_the_raw_body() {
    let v = obj(vec![("error", obj(vec![("code", s("500"))]))]);
    let mut inner = serde_json::Map::new();
    inner.insert("code".to_string(), serde_json::Value::String("500".to_string()));
    let mut outer = serde_json::Map::new();
    outer.insert("error".to_string(), serde_json::Value::Object(inner));
    let body = serde_json::Value::Object(outer);
    let r = handle_response(&v, &body, "12345678").unwrap();
    assert_eq!(r.lines[0], "Sent approximately 2 tokens");
    assert_eq!(r.lines[2], "{\n  \"error\": {\n    \"code\": \"500\"\n  }\n}");
    assert_eq!(r.exit_code, 0);
}

#[test]
fn handled_reply_needs_no_rendering() {
    let v = reply_body("Paris");
    let r = handle_response(&v, &serde_json::Value::Null, "q").unwrap();
    assert_eq!(r.lines, vec!["Paris".to_string()]);
}

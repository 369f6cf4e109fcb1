use goggin_rs_logger::json::JsonValue;
use goggin_rs_logger::redaction::{parse_redacted_json, redact_json_value, sanitize_header_value};

fn text(s: &str) -> JsonValue {
    JsonValue::String(s.to_string())
}

fn object(entries: Vec<(&str, JsonValue)>) -> JsonValue {
    JsonValue::Object(entries.into_iter().map(|(k, v)| (k.to_string(), v)).collect())
}

fn field<'a>(value: &'a JsonValue, key: &str) -> &'a JsonValue {
    match value {
        JsonValue::Object(entries) => {
            &entries.iter().find(|(k, _)| k == key).expect("key should be present").1
        }
        _ => panic!("expected an object"),
    }
}

fn item(value: &JsonValue, index: usize) -> &JsonValue {
    match value {
        JsonValue::Array(items) => &items[index],
        _ => panic!("expected an array"),
    }
}

fn is_text(value: &JsonValue, expected: &str) -> bool {
    matches!(value, JsonValue::String(s) if s == expected)
}

#[test]
fn redact_json_masks_sensitive_keys() {
    let mut value = object(vec![
        ("password", text("secret")),
        (
            "nested",
            object(vec![("auth_code", text("123456")), ("name", text("Taylor"))]),
        ),
    ]);

    redact_json_value(&mut value);

    assert!(is_text(field(&value, "password"), "(hidden)"));
    assert!(is_text(field(field(&value, "nested"), "auth_code"), "(hidden)"));
    assert!(is_text(field(field(&value, "nested"), "name"), "Taylor"));
}

#[test]
fn redact_json_masks_case_insensitive_and_substring_keys() {
    let mut value = object(vec![
        ("Access_Token", text("abc")),
        ("Authorization", text("Bearer abc")),
        ("session_id", text("session-1")),
        ("cookie", text("sid=session-1")),
        ("jwt", text("ey...")),
        ("dbPasswordHash", text("hashed")),
        (
            "nested",
            object(vec![("clientSecret", text("top-secret")), ("safe", text("visible"))]),
        ),
        (
            "items",
            JsonValue::Array(vec![
                object(vec![("refresh_token", text("token-1"))]),
                object(vec![("note", text("still-visible"))]),
            ]),
        ),
    ]);

    redact_json_value(&mut value);

    assert!(is_text(field(&value, "Access_Token"), "(hidden)"));
    assert!(is_text(field(&value, "Authorization"), "(hidden)"));
    assert!(is_text(field(&value, "session_id"), "(hidden)"));
    assert!(is_text(field(&value, "cookie"), "(hidden)"));
    assert!(is_text(field(&value, "jwt"), "(hidden)"));
    assert!(is_text(field(&value, "dbPasswordHash"), "(hidden)"));
    assert!(is_text(field(field(&value, "nested"), "clientSecret"), "(hidden)"));
    assert!(is_text(field(field(&value, "nested"), "safe"), "visible"));
    assert!(is_text(field(item(field(&value, "items"), 0), "refresh_token"), "(hidden)"));
    assert!(is_text(field(item(field(&value, "items"), 1), "note"), "still-visible"));
}

#[test]
fn sanitize_header_value_masks_sensitive_headers() {
    assert_eq!(
        sanitize_header_value("Authorization", "Bearer abc"),
        "(hidden)"
    );
    assert_eq!(sanitize_header_value("X-Auth-Token", "abc"), "(hidden)");
    assert_eq!(sanitize_header_value("X-Session-Id", "abc"), "(hidden)");
    assert_eq!(sanitize_header_value("X-JWT", "abc"), "(hidden)");
    assert_eq!(
        sanitize_header_value("X-Client-Secret-Key", "xyz"),
        "(hidden)"
    );
    assert_eq!(sanitize_header_value("X-Request-Id", "123"), "123");
}

#[test]
fn parse_redacted_json_returns_none_for_invalid_json() {
    let value = parse_redacted_json(b"not-json");
    assert!(value.is_none());
}

#[test]
fn parse_redacted_json_redacts_sensitive_fields() {
    let value = parse_redacted_json(br#"{"password":"abc","name":"Taylor"}"#)
        .expect("expected valid JSON");

    assert!(is_text(field(&value, "password"), "(hidden)"));
    assert!(is_text(field(&value, "name"), "Taylor"));
}

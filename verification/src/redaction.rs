//! Redaction of sensitive values in JSON bodies and HTTP headers.
//!
//! Values under keys that match known sensitive patterns (passwords,
//! tokens, secrets, API keys) are replaced with `"(hidden)"` before they
//! reach log output.

use vstd::prelude::*;
use crate::json::{JsonValue, parse_json, spec_parse_json};
use crate::text::{ascii_lower, ascii_lowercase, contains_seq, contains_str, str_eq};

verus! {

/// Whether a JSON key is sensitive: after ASCII lower-casing it is one of
/// the known sensitive names, or contains `token`, `authorization`,
/// `secret`, `session`, `cookie`, `jwt` or `password`.
pub open spec fn sensitive_json_key(key: Seq<char>) -> bool {
    let k = ascii_lower(key);
    ||| k == "password"@
    ||| k == "confirm"@
    ||| k == "token"@
    ||| k == "access_token"@
    ||| k == "refresh_token"@
    ||| k == "authorization"@
    ||| k == "auth"@
    ||| k == "auth_code"@
    ||| k == "jwt"@
    ||| k == "session"@
    ||| k == "session_id"@
    ||| k == "cookie"@
    ||| k == "set_cookie"@
    ||| k == "secret"@
    ||| k == "api_key"@
    ||| contains_seq(k, "token"@)
    ||| contains_seq(k, "authorization"@)
    ||| contains_seq(k, "secret"@)
    ||| contains_seq(k, "session"@)
    ||| contains_seq(k, "cookie"@)
    ||| contains_seq(k, "jwt"@)
    ||| contains_seq(k, "password"@)
}

/// Whether an HTTP header name is sensitive: after ASCII lower-casing it is
/// one of the known sensitive headers, or contains `token`, `secret`,
/// `session` or `jwt`.
pub open spec fn sensitive_header(name: Seq<char>) -> bool {
    let k = ascii_lower(name);
    ||| k == "authorization"@
    ||| k == "cookie"@
    ||| k == "set-cookie"@
    ||| k == "x-api-key"@
    ||| k == "x-auth-token"@
    ||| contains_seq(k, "token"@)
    ||| contains_seq(k, "secret"@)
    ||| contains_seq(k, "session"@)
    ||| contains_seq(k, "jwt"@)
}

/// The text that stands in for a hidden value.
pub open spec fn hidden_text() -> Seq<char> {
    "(hidden)"@
}

/// The value is the string `"(hidden)"`.
pub open spec fn is_hidden(v: JsonValue) -> bool {
    v matches JsonValue::String(s) && s@ == hidden_text()
}

/// `r` is `v` with the value under every sensitive object key, at any
/// depth, replaced by `"(hidden)"`, and everything else kept as it is.
pub open spec fn redacts_to(v: JsonValue, r: JsonValue) -> bool
    decreases v,
{
    match v {
        JsonValue::Object(entries) => match r {
            JsonValue::Object(out) => {
                &&& out@.len() == entries@.len()
                &&& forall|i: int|
                    0 <= i < entries@.len() ==> {
                        &&& (#[trigger] out@[i]).0@ == entries@[i].0@
                        &&& if sensitive_json_key(entries@[i].0@) {
                            is_hidden(out@[i].1)
                        } else {
                            redacts_to(entries@[i].1, out@[i].1)
                        }
                    }
            },
            _ => false,
        },
        JsonValue::Array(items) => match r {
            JsonValue::Array(out) => {
                &&& out@.len() == items@.len()
                &&& forall|i: int|
                    0 <= i < items@.len() ==> redacts_to(items@[i], #[trigger] out@[i])
            },
            _ => false,
        },
        _ => r == v,
    }
}

/// Whether a JSON key is sensitive (ASCII case ignored).
pub fn is_sensitive_json_key(key: &str) -> (res: bool)
    ensures
        res == sensitive_json_key(key@),
{
    let lower = ascii_lowercase(key);
    let k = lower.as_str();
    str_eq(k, "password") || str_eq(k, "confirm") || str_eq(k, "token") || str_eq(k, "access_token")
        || str_eq(k, "refresh_token") || str_eq(k, "authorization") || str_eq(k, "auth") || str_eq(
        k,
        "auth_code",
    ) || str_eq(k, "jwt") || str_eq(k, "session") || str_eq(k, "session_id") || str_eq(k, "cookie")
        || str_eq(k, "set_cookie") || str_eq(k, "secret") || str_eq(k, "api_key") || contains_str(
        k,
        "token",
    ) || contains_str(k, "authorization") || contains_str(k, "secret") || contains_str(k, "session")
        || contains_str(k, "cookie") || contains_str(k, "jwt") || contains_str(k, "password")
}

/// Whether an HTTP header name is sensitive (ASCII case ignored).
pub fn is_sensitive_header(name: &str) -> (res: bool)
    ensures
        res == sensitive_header(name@),
{
    let lower = ascii_lowercase(name);
    let k = lower.as_str();
    str_eq(k, "authorization") || str_eq(k, "cookie") || str_eq(k, "set-cookie") || str_eq(
        k,
        "x-api-key",
    ) || str_eq(k, "x-auth-token") || contains_str(k, "token") || contains_str(k, "secret")
        || contains_str(k, "session") || contains_str(k, "jwt")
}

/// `"(hidden)"` for a sensitive header, the header's value otherwise.
pub fn sanitize_header_value(name: &str, value: &str) -> (res: String)
    ensures
        res@ == if sensitive_header(name@) {
            hidden_text()
        } else {
            value@
        },
{
    if is_sensitive_header(name) {
        String::from_str("(hidden)")
    } else {
        String::from_str(value)
    }
}

/// The string value `"(hidden)"`.
fn hidden_value() -> (res: JsonValue)
    ensures
        is_hidden(res),
{
    JsonValue::String(String::from_str("(hidden)"))
}

/// `v` with the values of sensitive keys replaced by `"(hidden)"`.
#[verifier::loop_isolation(false)]
fn redacted(v: JsonValue) -> (res: JsonValue)
    ensures
        redacts_to(v, res),
    decreases v,
{
    let ghost whole = v;
    match v {
        JsonValue::Object(entries) => {
            let ghost old_vec = entries;
            let ghost old_entries = entries@;
            let mut out: Vec<(String, JsonValue)> = Vec::new();
            for e in it: entries.into_iter()
                invariant
                    it.seq() == old_entries,
                    whole == JsonValue::Object(old_vec),
                    old_vec@ == old_entries,
                    out@.len() == it.index(),
                    forall|i: int|
                        0 <= i < it.index() ==> {
                            &&& (#[trigger] out@[i]).0@ == old_entries[i].0@
                            &&& if sensitive_json_key(old_entries[i].0@) {
                                is_hidden(out@[i].1)
                            } else {
                                redacts_to(old_entries[i].1, out@[i].1)
                            }
                        },
            {
                let ghost k = it.index();
                let (key, value) = e;
                proof {
                    assert(k < old_entries.len());
                    assert(old_entries[k as int].1 == value);
                    assert(whole == JsonValue::Object(old_vec));
                    assert(decreases_to!(whole => whole->Object_0));
                    assert(decreases_to!(old_vec => old_vec[k as int]));
                    assert(decreases_to!(old_vec[k as int] => old_vec[k as int].1));
                }
                if is_sensitive_json_key(key.as_str()) {
                    out.push((key, hidden_value()));
                } else {
                    out.push((key, redacted(value)));
                }
            }
            JsonValue::Object(out)
        },
        JsonValue::Array(items) => {
            let ghost old_vec = items;
            let ghost old_items = items@;
            let mut out: Vec<JsonValue> = Vec::new();
            for item in it: items.into_iter()
                invariant
                    it.seq() == old_items,
                    whole == JsonValue::Array(old_vec),
                    old_vec@ == old_items,
                    out@.len() == it.index(),
                    forall|i: int| 0 <= i < it.index() ==> redacts_to(old_items[i], #[trigger] out@[i]),
            {
                proof {
                    let k = it.index();
                    assert(k < old_items.len());
                    assert(old_items[k as int] == item);
                    assert(whole == JsonValue::Array(old_vec));
                    assert(decreases_to!(whole => whole->Array_0));
                    assert(decreases_to!(old_vec => old_vec[k as int]));
                }
                out.push(redacted(item));
            }
            JsonValue::Array(out)
        },
        other => other,
    }
}

/// Replaces the value under every sensitive key, at any depth, with `"(hidden)"`.
pub fn redact_json_value(value: &mut JsonValue)
    ensures
        redacts_to(*old(value), *final(value)),
{
    let mut v = JsonValue::Null;
    std::mem::swap(&mut v, value);
    *value = redacted(v);
}

/// Parses `bytes` as JSON and redacts it; `None` for empty or invalid input.
pub fn parse_redacted_json(bytes: &[u8]) -> (res: Option<JsonValue>)
    ensures
        bytes@.len() == 0 ==> res is None,
        bytes@.len() > 0 ==> match spec_parse_json(bytes@) {
            Some(v) => res matches Some(r) && redacts_to(v, r),
            None => res is None,
        },
{
    if bytes.len() == 0 {
        return None;
    }
    match parse_json(bytes) {
        Some(v) => Some(redacted(v)),
        None => None,
    }
}

/// No value under a sensitive object key, at any depth, is anything but
/// the string `"(hidden)"`.
pub open spec fn no_sensitive_values(v: JsonValue) -> bool
    decreases v,
{
    match v {
        JsonValue::Object(entries) => forall|i: int|
            0 <= i < entries@.len() ==> if sensitive_json_key((#[trigger] entries@[i]).0@) {
                is_hidden(entries@[i].1)
            } else {
                no_sensitive_values(entries@[i].1)
            },
        JsonValue::Array(items) => forall|i: int|
            0 <= i < items@.len() ==> no_sensitive_values(#[trigger] items@[i]),
        _ => true,
    }
}

/// Redaction leaves no sensitive value visible, whatever the input.
pub proof fn lemma_redaction_hides_all_sensitive_values(v: JsonValue, r: JsonValue)
    requires
        redacts_to(v, r),
    ensures
        no_sensitive_values(r),
    decreases v,
{
    match v {
        JsonValue::Object(entries) => {
            let out = r->Object_0;
            assert forall|i: int| 0 <= i < out@.len() implies if sensitive_json_key(
                (#[trigger] out@[i]).0@,
            ) {
                is_hidden(out@[i].1)
            } else {
                no_sensitive_values(out@[i].1)
            } by {
                assert(out@[i].0@ == entries@[i].0@);
                if !sensitive_json_key(entries@[i].0@) {
                    assert(decreases_to!(v => v->Object_0));
                    lemma_redaction_hides_all_sensitive_values(entries@[i].1, out@[i].1);
                }
            }
        },
        JsonValue::Array(items) => {
            let out = r->Array_0;
            assert forall|i: int| 0 <= i < out@.len() implies no_sensitive_values(
                #[trigger] out@[i],
            ) by {
                assert(decreases_to!(v => v->Array_0));
                lemma_redaction_hides_all_sensitive_values(items@[i], out@[i]);
            }
        },
        _ => {},
    }
}

/// The key, lower-cased, is one of the fixed sensitive JSON key names.
pub open spec fn listed_sensitive_json_key(k: Seq<char>) -> bool {
    ||| k == "password"@
    ||| k == "confirm"@
    ||| k == "token"@
    ||| k == "access_token"@
    ||| k == "refresh_token"@
    ||| k == "authorization"@
    ||| k == "auth"@
    ||| k == "auth_code"@
    ||| k == "jwt"@
    ||| k == "session"@
    ||| k == "session_id"@
    ||| k == "cookie"@
    ||| k == "set_cookie"@
    ||| k == "secret"@
    ||| k == "api_key"@
}

/// Every listed sensitive JSON key name, in any ASCII case, is sensitive,
/// and redaction replaces the value under such a key, in any object it
/// redacts, by the string `(hidden)` while keeping the key.
pub proof fn lemma_listed_json_keys_are_hidden(
    entries: Vec<(String, JsonValue)>,
    r: JsonValue,
    i: int,
)
    requires
        redacts_to(JsonValue::Object(entries), r),
        0 <= i < entries@.len(),
        listed_sensitive_json_key(ascii_lower(entries@[i].0@)),
    ensures
        sensitive_json_key(entries@[i].0@),
        r matches JsonValue::Object(out) && out@.len() == entries@.len() && out@[i].0@
            == entries@[i].0@ && (out@[i].1 matches JsonValue::String(s) && s@ == "(hidden)"@),
{
    reveal_strlit("(hidden)");
    let out = r->Object_0;
    assert(out@[i].0@ == entries@[i].0@);
}

/// Every listed sensitive header name (`authorization`, `cookie`,
/// `set-cookie`, `x-api-key`, `x-auth-token`), in any ASCII case, is
/// sensitive, so its value is shown as `(hidden)`.
pub proof fn lemma_listed_headers_are_sensitive(name: Seq<char>)
    requires
        ascii_lower(name) == "authorization"@ || ascii_lower(name) == "cookie"@ || ascii_lower(name)
            == "set-cookie"@ || ascii_lower(name) == "x-api-key"@ || ascii_lower(name)
            == "x-auth-token"@,
    ensures
        sensitive_header(name),
{
}

} // verus!

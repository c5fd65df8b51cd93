use trace_view::model::{AttributeValue, Span};
use trace_view::redact::redact;

fn s(v: &str) -> String {
    v.to_string()
}

fn string_attr(key: &str, value: &str) -> (String, Option<AttributeValue>) {
    (s(key), Some(AttributeValue::StringValue(s(value))))
}

fn sample_span() -> Span {
    Span {
        name: s("request"),
        attributes: vec![
            string_attr("http.request.method", "GET"),
            string_attr("fpx.http.request.pathname", "/foo"),
            string_attr("fpx.http.request.env", "DB_PASSWORD=hunter2"),
            string_attr("http.request.header.authorization", "Bearer sekret"),
            string_attr("http.request.header.neon-connection-string", "postgres://u:p@h/db"),
            string_attr("x-custom", "kept"),
        ],
    }
}

#[test]
fn redact_removes_env_key() {
    let r = redact(&sample_span());
    assert!(r.attributes.iter().all(|(k, _)| k != "fpx.http.request.env"));
    assert_eq!(r.attributes.len(), 5);
}

#[test]
fn redact_masks_authorization_value() {
    let r = redact(&sample_span());
    let auth = r
        .attributes
        .iter()
        .find(|(k, _)| k == "http.request.header.authorization")
        .expect("authorization key must survive redaction");
    assert_eq!(auth.1, Some(AttributeValue::StringValue(s("*****"))));
}

#[test]
fn redact_masks_connection_string_value() {
    let r = redact(&sample_span());
    let conn = r
        .attributes
        .iter()
        .find(|(k, _)| k == "http.request.header.neon-connection-string")
        .expect("connection-string key must survive redaction");
    assert_eq!(conn.1, Some(AttributeValue::StringValue(s("*****"))));
}

#[test]
fn redact_is_idempotent() {
    let once = redact(&sample_span());
    let twice = redact(&once);
    assert_eq!(twice, once);
}

#[test]
fn redact_passes_other_attributes_unchanged() {
    let r = redact(&sample_span());
    let custom = r.attributes.iter().find(|(k, _)| k == "x-custom").unwrap();
    assert_eq!(custom.1, Some(AttributeValue::StringValue(s("kept"))));
    let method = r.attributes.iter().find(|(k, _)| k == "http.request.method").unwrap();
    assert_eq!(method.1, Some(AttributeValue::StringValue(s("GET"))));
    assert_eq!(r.name, s("request"));
}

#[test]
fn redact_handles_duplicate_sensitive_keys() {
    let span = Span {
        name: s("request"),
        attributes: vec![
            string_attr("fpx.http.request.env", "A=1"),
            string_attr("http.request.header.authorization", "first"),
            string_attr("fpx.http.request.env", "B=2"),
            string_attr("http.request.header.authorization", "second"),
        ],
    };
    let r = redact(&span);
    assert!(r.attributes.iter().all(|(k, _)| k != "fpx.http.request.env"));
    assert_eq!(r.attributes.len(), 2);
    for (_, v) in &r.attributes {
        assert_eq!(*v, Some(AttributeValue::StringValue(s("*****"))));
    }
}

#[test]
fn redact_keeps_non_string_values() {
    let span = Span {
        name: s("db"),
        attributes: vec![
            (s("rows"), Some(AttributeValue::IntValue(42))),
            (s("elapsed"), Some(AttributeValue::DoubleValue(s("1.5")))),
            (s("detail"), Some(AttributeValue::Other)),
            (s("empty"), None),
        ],
    };
    let r = redact(&span);
    assert_eq!(r.attributes, span.attributes);
}

use trace_view::model::{AttributeValue, Span, Trace};
use trace_view::summary::summarize;

fn s(v: &str) -> String {
    v.to_string()
}

fn string_attr(key: &str, value: &str) -> (String, Option<AttributeValue>) {
    (s(key), Some(AttributeValue::StringValue(s(value))))
}

fn request_span(method: &str, path: &str, status: AttributeValue) -> Span {
    Span {
        name: s("request"),
        attributes: vec![
            string_attr("http.request.method", method),
            string_attr("fpx.http.request.pathname", path),
            (s("http.response.status_code"), Some(status)),
            string_attr("http.request.header.authorization", "Bearer sekret"),
        ],
    }
}

#[test]
fn summarize_empty_returns_single_non_actionable_entry() {
    let entries = summarize(&vec![]);
    assert_eq!(entries.len(), 1);
    assert_eq!(entries[0].label, s("No traces found"));
    assert!(!entries[0].run_command);
    assert_eq!(
        entries[0].new_text,
        s("No traces found, check if your Fiberplane Studio is running and if there are traces recorded."),
    );
}

#[test]
fn summarize_builds_status_method_path_labels() {
    let trace = Trace {
        trace_id: s("abc123"),
        spans: vec![request_span("GET", "/foo", AttributeValue::IntValue(200))],
    };
    let entries = summarize(&vec![trace]);
    assert_eq!(entries.len(), 1);
    assert_eq!(entries[0].label, s("200 GET /foo"));
    assert_eq!(entries[0].new_text, s("abc123"));
    assert!(entries[0].run_command);
}

#[test]
fn summarize_labels_never_carry_sensitive_values() {
    let trace = Trace {
        trace_id: s("abc123"),
        spans: vec![request_span("POST", "/login", AttributeValue::IntValue(401))],
    };
    let entries = summarize(&vec![trace]);
    for e in &entries {
        assert!(!e.label.contains("sekret"));
        assert!(!e.label.contains("Bearer"));
    }
}

#[test]
fn summarize_skips_spans_not_named_request() {
    let trace = Trace {
        trace_id: s("abc123"),
        spans: vec![
            Span { name: s("db-query"), attributes: vec![string_attr("http.request.method", "GET")] },
            request_span("GET", "/a", AttributeValue::IntValue(200)),
        ],
    };
    let entries = summarize(&vec![trace]);
    assert_eq!(entries.len(), 1);
    assert_eq!(entries[0].label, s("200 GET /a"));
}

#[test]
fn summarize_defaults_for_missing_attributes() {
    let trace = Trace {
        trace_id: s("ff"),
        spans: vec![Span { name: s("request"), attributes: vec![] }],
    };
    let entries = summarize(&vec![trace]);
    assert_eq!(entries.len(), 1);
    assert_eq!(entries[0].label, s("??? UNKNOWN /"));
}

#[test]
fn summarize_defaults_for_wrongly_typed_attributes() {
    let trace = Trace {
        trace_id: s("ff"),
        spans: vec![Span {
            name: s("request"),
            attributes: vec![
                (s("http.request.method"), Some(AttributeValue::IntValue(7))),
                (s("fpx.http.request.pathname"), None),
                (s("http.response.status_code"), Some(AttributeValue::Other)),
            ],
        }],
    };
    let entries = summarize(&vec![trace]);
    assert_eq!(entries[0].label, s("??? UNKNOWN /"));
}

#[test]
fn summarize_renders_string_and_integer_status_alike() {
    let by_string = Trace {
        trace_id: s("a1"),
        spans: vec![request_span("GET", "/x", AttributeValue::StringValue(s("200")))],
    };
    let by_int = Trace {
        trace_id: s("a1"),
        spans: vec![request_span("GET", "/x", AttributeValue::IntValue(200))],
    };
    let left = summarize(&vec![by_string]);
    let right = summarize(&vec![by_int]);
    assert_eq!(left[0].label, right[0].label);
    assert_eq!(left[0].label, s("200 GET /x"));
}

#[test]
fn summarize_renders_double_status_with_its_given_form() {
    let trace = Trace {
        trace_id: s("a1"),
        spans: vec![request_span("GET", "/x", AttributeValue::DoubleValue(s("200")))],
    };
    let entries = summarize(&vec![trace]);
    assert_eq!(entries[0].label, s("200 GET /x"));
}

#[test]
fn summarize_gives_every_span_of_a_trace_the_same_selector() {
    let trace = Trace {
        trace_id: s("deadbeef"),
        spans: vec![
            request_span("GET", "/a", AttributeValue::IntValue(200)),
            request_span("PUT", "/b", AttributeValue::IntValue(204)),
        ],
    };
    let entries = summarize(&vec![trace]);
    assert_eq!(entries.len(), 2);
    assert_eq!(entries[0].new_text, s("deadbeef"));
    assert_eq!(entries[1].new_text, s("deadbeef"));
    assert_eq!(entries[0].label, s("200 GET /a"));
    assert_eq!(entries[1].label, s("204 PUT /b"));
}

#[test]
fn summarize_orders_entries_by_trace_then_span() {
    let t1 = Trace {
        trace_id: s("01"),
        spans: vec![request_span("GET", "/one", AttributeValue::IntValue(200))],
    };
    let t2 = Trace {
        trace_id: s("02"),
        spans: vec![request_span("GET", "/two", AttributeValue::IntValue(404))],
    };
    let entries = summarize(&vec![t1, t2]);
    assert_eq!(entries.len(), 2);
    assert_eq!(entries[0].new_text, s("01"));
    assert_eq!(entries[1].new_text, s("02"));
    assert_eq!(entries[1].label, s("404 GET /two"));
}

#[test]
fn summarize_handles_negative_integer_status() {
    let trace = Trace {
        trace_id: s("aa"),
        spans: vec![request_span("GET", "/x", AttributeValue::IntValue(-12))],
    };
    let entries = summarize(&vec![trace]);
    assert_eq!(entries[0].label, s("-12 GET /x"));
}

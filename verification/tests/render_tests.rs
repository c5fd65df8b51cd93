use trace_view::model::{AttributeValue, Span, Trace};
use trace_view::render::{fence_json, trace_to_json};
use trace_view::text::{i64_to_string, u64_to_string};

fn s(v: &str) -> String {
    v.to_string()
}

#[test]
fn u64_rendering_is_exact() {
    assert_eq!(u64_to_string(0), s("0"));
    assert_eq!(u64_to_string(7), s("7"));
    assert_eq!(u64_to_string(10), s("10"));
    assert_eq!(u64_to_string(200), s("200"));
    assert_eq!(u64_to_string(9876543210), s("9876543210"));
    assert_eq!(u64_to_string(u64::MAX), s("18446744073709551615"));
}

#[test]
fn i64_rendering_is_exact() {
    assert_eq!(i64_to_string(0), s("0"));
    assert_eq!(i64_to_string(404), s("404"));
    assert_eq!(i64_to_string(-123), s("-123"));
    assert_eq!(i64_to_string(i64::MAX), s("9223372036854775807"));
    assert_eq!(i64_to_string(i64::MIN), s("-9223372036854775808"));
}

#[test]
fn trace_renders_as_pretty_json() {
    let trace = Trace {
        trace_id: s("ab12"),
        spans: vec![Span {
            name: s("request"),
            attributes: vec![
                (s("k"), Some(AttributeValue::StringValue(s("v")))),
                (s("n"), Some(AttributeValue::IntValue(7))),
                (s("d"), Some(AttributeValue::DoubleValue(s("1.5")))),
                (s("o"), Some(AttributeValue::Other)),
                (s("m"), None),
            ],
        }],
    };
    let expected = "{\n  \"trace_id\": \"ab12\",\n  \"spans\": [\n    {\n      \"name\": \"request\",\n      \"attributes\": {\n        \"k\": \"v\",\n        \"n\": 7,\n        \"d\": 1.5,\n        \"o\": null,\n        \"m\": null\n      }\n    }\n  ]\n}";
    assert_eq!(trace_to_json(&trace), s(expected));
}

#[test]
fn trace_with_several_spans_separates_them_with_commas() {
    let trace = Trace {
        trace_id: s("ff"),
        spans: vec![
            Span { name: s("a"), attributes: vec![] },
            Span { name: s("b"), attributes: vec![] },
        ],
    };
    let expected = "{\n  \"trace_id\": \"ff\",\n  \"spans\": [\n    {\n      \"name\": \"a\",\n      \"attributes\": {}\n    },\n    {\n      \"name\": \"b\",\n      \"attributes\": {}\n    }\n  ]\n}";
    assert_eq!(trace_to_json(&trace), s(expected));
}

#[test]
fn json_strings_are_escaped() {
    let trace = Trace {
        trace_id: s("00"),
        spans: vec![Span {
            name: s("a\"b\\c\nd\te\u{1}f"),
            attributes: vec![(s("key \"q\""), Some(AttributeValue::StringValue(s("line1\nline2"))))],
        }],
    };
    let rendered = trace_to_json(&trace);
    assert!(rendered.contains("\"name\": \"a\\\"b\\\\c\\nd\\te\\u0001f\""));
    assert!(rendered.contains("\"key \\\"q\\\"\": \"line1\\nline2\""));
}

#[test]
fn non_ascii_characters_pass_through_unescaped() {
    let trace = Trace {
        trace_id: s("00"),
        spans: vec![Span {
            name: s("héllo \u{263a}"),
            attributes: vec![],
        }],
    };
    let rendered = trace_to_json(&trace);
    assert!(rendered.contains("\"name\": \"héllo \u{263a}\""));
}

#[test]
fn fencing_wraps_a_body_in_a_json_code_block() {
    assert_eq!(fence_json("{}"), s("```json\n{}\n```"));
}

use trace_view::commands::{
    check_hex_id, list_command, render_begin, render_finish, spans_url_string, traces_url_string,
    Error, FetchFailure,
};
use trace_view::model::{AttributeValue, Span, Trace};

fn s(v: &str) -> String {
    v.to_string()
}

fn string_attr(key: &str, value: &str) -> (String, Option<AttributeValue>) {
    (s(key), Some(AttributeValue::StringValue(s(value))))
}

#[test]
fn render_begin_without_arguments_is_invalid_argument() {
    let r = render_begin("trace", &vec![]);
    match r {
        Err(Error::InvalidArgument(m)) => assert_eq!(m, s("no trace id provided")),
        other => panic!("expected InvalidArgument, got {:?}", other),
    }
}

#[test]
fn render_begin_rejects_unknown_commands() {
    let r = render_begin("frobnicate", &vec![s("abc123")]);
    match r {
        Err(Error::UnknownCommand(c)) => {
            assert_eq!(c, s("frobnicate"));
            assert_eq!(
                Error::UnknownCommand(c).message(),
                s("unknown slash command: \"frobnicate\"")
            );
        },
        other => panic!("expected UnknownCommand, got {:?}", other),
    }
}

#[test]
fn render_begin_rejects_malformed_trace_ids() {
    let r = render_begin("trace", &vec![s("not-hex!")]);
    match r {
        Err(Error::InvalidArgument(m)) => assert_eq!(m, s("trace id is invalid")),
        other => panic!("expected InvalidArgument, got {:?}", other),
    }
    let empty = render_begin("trace", &vec![s("")]);
    assert!(matches!(empty, Err(Error::InvalidArgument(_))));
}

#[test]
fn render_begin_accepts_hex_ids_of_either_case() {
    assert_eq!(render_begin("trace", &vec![s("abc123")]), Ok(s("abc123")));
    assert_eq!(render_begin("trace", &vec![s("DEADbeef09")]), Ok(s("DEADbeef09")));
}

#[test]
fn check_hex_id_accepts_digits_and_hex_letters_only() {
    assert!(check_hex_id("0123456789abcdefABCDEF"));
    assert!(!check_hex_id(""));
    assert!(!check_hex_id("xyz"));
    assert!(!check_hex_id("12 34"));
    assert!(!check_hex_id("12g4"));
}

#[test]
fn list_command_propagates_transport_failure_as_fetch_error() {
    let r = list_command("trace", Err(FetchFailure::Transport(s("HTTP 500 from /v1/traces"))));
    match r {
        Err(Error::FetchError(m)) => {
            assert_eq!(m, s("HTTP 500 from /v1/traces"));
            assert_eq!(
                Error::FetchError(m).message(),
                s("Failed to fetch: HTTP 500 from /v1/traces")
            );
        },
        other => panic!("expected FetchError, got {:?}", other),
    }
}

#[test]
fn list_command_propagates_decode_failure_as_decode_error() {
    let r = list_command("trace", Err(FetchFailure::Decode(s("unexpected token"))));
    match r {
        Err(Error::DecodeError(m)) => {
            assert_eq!(m, s("unexpected token"));
            assert_eq!(Error::DecodeError(m).message(), s("Failed to parse JSON: unexpected token"));
        },
        other => panic!("expected DecodeError, got {:?}", other),
    }
}

#[test]
fn list_command_rejects_unknown_commands() {
    let r = list_command("other", Ok(vec![]));
    assert!(matches!(r, Err(Error::UnknownCommand(_))));
}

#[test]
fn list_command_rejects_unknown_commands_even_when_the_fetch_failed() {
    let r = list_command("other", Err(FetchFailure::Transport(s("connection refused"))));
    match r {
        Err(Error::UnknownCommand(c)) => assert_eq!(c, s("other")),
        other => panic!("expected UnknownCommand, got {:?}", other),
    }
    let r = list_command("other", Err(FetchFailure::Decode(s("bad json"))));
    assert!(matches!(r, Err(Error::UnknownCommand(_))));
}

#[test]
fn collector_urls_are_exact() {
    assert_eq!(traces_url_string(), s("http://localhost:8788/v1/traces"));
    assert_eq!(
        spans_url_string("abc123"),
        s("http://localhost:8788/v1/traces/abc123/spans")
    );
}

#[test]
fn list_command_returns_synthetic_entry_for_empty_listing() {
    let r = list_command("trace", Ok(vec![])).expect("empty listing is not an error");
    assert_eq!(r.len(), 1);
    assert_eq!(r[0].label, s("No traces found"));
    assert!(!r[0].run_command);
}

#[test]
fn list_command_summarizes_traces() {
    let trace = Trace {
        trace_id: s("abc123"),
        spans: vec![Span {
            name: s("request"),
            attributes: vec![
                string_attr("http.request.method", "GET"),
                string_attr("fpx.http.request.pathname", "/foo"),
                (s("http.response.status_code"), Some(AttributeValue::IntValue(200))),
            ],
        }],
    };
    let r = list_command("trace", Ok(vec![trace])).unwrap();
    assert_eq!(r.len(), 1);
    assert_eq!(r[0].label, s("200 GET /foo"));
    assert_eq!(r[0].new_text, s("abc123"));
}

#[test]
fn render_finish_round_trips_a_request_span() {
    let spans = vec![Span {
        name: s("request"),
        attributes: vec![
            string_attr("http.request.method", "GET"),
            string_attr("fpx.http.request.pathname", "/foo"),
            (s("http.response.status_code"), Some(AttributeValue::IntValue(200))),
            string_attr("http.request.header.authorization", "Bearer sekret"),
            string_attr("fpx.http.request.env", "DB_PASSWORD=hunter2"),
        ],
    }];
    let out = render_finish("abc123", Ok(spans)).expect("render succeeds");
    assert!(out.text.contains("GET"));
    assert!(out.text.contains("/foo"));
    assert!(out.text.contains("200"));
    assert!(out.text.contains("abc123"));
    assert!(!out.text.contains("sekret"));
    assert!(!out.text.contains("hunter2"));
    assert!(!out.text.contains("DB_PASSWORD"));
    assert!(out.text.contains("*****"));
    assert!(out.text.starts_with("```json\n{"));
    assert!(out.text.ends_with("\n```"));
    assert_eq!(out.sections.len(), 1);
    assert_eq!(out.sections[0].label, s("Trace: abc123"));
    assert_eq!(out.sections[0].start, 0);
    assert_eq!(out.sections[0].end, out.text.len());
}

#[test]
fn render_finish_propagates_fetch_failures() {
    let r = render_finish("abc123", Err(FetchFailure::Transport(s("connection refused"))));
    match r {
        Err(Error::FetchError(m)) => assert_eq!(m, s("connection refused")),
        other => panic!("expected FetchError, got {:?}", other),
    }
    let r = render_finish("abc123", Err(FetchFailure::Decode(s("bad json"))));
    assert!(matches!(r, Err(Error::DecodeError(_))));
}

#[test]
fn render_finish_of_no_spans_is_exact() {
    let out = render_finish("abc123", Ok(vec![])).unwrap();
    assert_eq!(out.text, s("```json\n{\n  \"trace_id\": \"abc123\",\n  \"spans\": []\n}\n```"));
    assert_eq!(out.sections[0].end, out.text.len());
}

#[test]
fn error_messages_are_descriptive() {
    assert_eq!(Error::FetchError(s("x")).message(), s("Failed to fetch: x"));
    assert_eq!(Error::DecodeError(s("y")).message(), s("Failed to parse JSON: y"));
    assert_eq!(Error::InvalidArgument(s("no trace id provided")).message(), s("no trace id provided"));
    assert_eq!(Error::SerializeError(s("z")).message(), s("Failed to format JSON: z"));
    assert_eq!(Error::UnknownCommand(s("c")).message(), s("unknown slash command: \"c\""));
}

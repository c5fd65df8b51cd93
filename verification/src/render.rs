//! Trace rendering: a deterministic pretty-printed JSON serialisation of
//! a redacted trace, wrapped in a fenced code block, with an exact
//! character-level specification of the output.

use vstd::prelude::*;

use crate::model::{AttributeValue, Span, SpanView, Trace, TraceView, ValueModel};
use crate::redact::{redact, redact_span};
use crate::text::{append_json_string, i64_to_string, int_label, json_string};

verus! {

/// The JSON rendering of one stored attribute value. An absent or opaque
/// value renders as `null`; a floating-point value keeps the decimal
/// rendering it arrived with from the decoding boundary.
pub open spec fn json_of_value(v: Option<ValueModel>) -> Seq<char> {
    match v {
        None => "null"@,
        Some(ValueModel::StringV(s)) => json_string(s),
        Some(ValueModel::IntV(n)) => int_label(n),
        Some(ValueModel::DoubleV(r)) => r,
        Some(ValueModel::OtherV) => "null"@,
    }
}

/// One line of the attributes object, indented to its depth.
pub open spec fn attr_line(e: (Seq<char>, Option<ValueModel>)) -> Seq<char> {
    "        "@ + json_string(e.0) + ": "@ + json_of_value(e.1)
}

/// The attribute lines joined with comma separators.
pub open spec fn attr_lines(es: Seq<(Seq<char>, Option<ValueModel>)>) -> Seq<char>
    decreases es.len(),
{
    if es.len() == 0 {
        Seq::empty()
    } else if es.len() == 1 {
        attr_line(es[0])
    } else {
        attr_lines(es.drop_last()) + ",\n"@ + attr_line(es.last())
    }
}

/// The attributes object of a span: `{}` when empty, otherwise one
/// key/value line per entry.
pub open spec fn json_of_attrs(es: Seq<(Seq<char>, Option<ValueModel>)>) -> Seq<char> {
    if es.len() == 0 {
        "{}"@
    } else {
        "{\n"@ + attr_lines(es) + "\n      }"@
    }
}

/// The JSON object for one span.
pub open spec fn json_of_span(s: SpanView) -> Seq<char> {
    "    {\n      \"name\": "@ + json_string(s.name) + ",\n      \"attributes\": "@
        + json_of_attrs(s.attrs) + "\n    }"@
}

/// The span objects joined with comma separators.
pub open spec fn span_lines(ss: Seq<SpanView>) -> Seq<char>
    decreases ss.len(),
{
    if ss.len() == 0 {
        Seq::empty()
    } else if ss.len() == 1 {
        json_of_span(ss[0])
    } else {
        span_lines(ss.drop_last()) + ",\n"@ + json_of_span(ss.last())
    }
}

/// The spans array: `[]` when empty, otherwise one object per span.
pub open spec fn json_of_spans(ss: Seq<SpanView>) -> Seq<char> {
    if ss.len() == 0 {
        "[]"@
    } else {
        "[\n"@ + span_lines(ss) + "\n  ]"@
    }
}

/// The pretty-printed JSON document for a whole trace.
pub open spec fn json_of_trace(t: TraceView) -> Seq<char> {
    "{\n  \"trace_id\": "@ + json_string(t.trace_id) + ",\n  \"spans\": "@ + json_of_spans(
        t.spans,
    ) + "\n}"@
}

/// A JSON document wrapped in a fenced code block marked as JSON.
pub open spec fn fenced_json(body: Seq<char>) -> Seq<char> {
    "```json\n"@ + body + "\n```"@
}

/// Appends the JSON rendering of one attribute value.
fn append_value(out: &mut String, v: &Option<AttributeValue>)
    ensures
        final (out)@ == old(out)@ + json_of_value(crate::model::opt_value_view(*v)),
{
    match v {
        None => {
            out.append("null");
            proof {
                reveal_strlit("null");
            }
        },
        Some(AttributeValue::StringValue(s)) => {
            append_json_string(out, s.as_str());
        },
        Some(AttributeValue::IntValue(n)) => {
            let rendered = i64_to_string(*n);
            out.append(rendered.as_str());
        },
        Some(AttributeValue::DoubleValue(r)) => {
            out.append(r.as_str());
        },
        Some(AttributeValue::Other) => {
            out.append("null");
            proof {
                reveal_strlit("null");
            }
        },
    }
}

/// Appends the attributes object of `span`.
fn append_attrs(out: &mut String, span: &Span)
    ensures
        final (out)@ == old(out)@ + json_of_attrs(span@.attrs),
{
    let ghost attrs = span@.attrs;
    let n = span.attributes.len();
    if n == 0 {
        out.append("{}");
        proof {
            reveal_strlit("{}");
        }
        return ;
    }
    out.append("{\n");
    let ghost opened = out@;
    let mut i: usize = 0;
    while i < n
        invariant
            i <= n,
            n == span.attributes@.len(),
            n > 0,
            attrs == span@.attrs,
            attrs.len() == n,
            out@ == opened + attr_lines(attrs.take(i as int)),
            opened == old(out)@ + "{\n"@,
        decreases n - i,
    {
        let ghost prev = out@;
        if i > 0 {
            out.append(",\n");
        }
        out.append("        ");
        let entry = &span.attributes[i];
        append_json_string(out, entry.0.as_str());
        out.append(": ");
        append_value(out, &entry.1);
        proof {
            reveal_strlit(",\n");
            reveal_strlit("        ");
            reveal_strlit(": ");
            assert(attrs.take(i + 1).drop_last() =~= attrs.take(i as int));
            assert(attrs.take(i + 1).last() == attrs[i as int]);
            assert(attrs[i as int] == crate::model::entry_view(span.attributes@[i as int]));
            if i == 0 {
                assert(out@ =~= opened + attr_lines(attrs.take(1)));
            } else {
                assert(out@ =~= opened + attr_lines(attrs.take(i + 1)));
            }
        }
        i = i + 1;
    }
    out.append("\n      }");
    proof {
        reveal_strlit("{\n");
        reveal_strlit("\n      }");
        assert(attrs.take(n as int) =~= attrs);
        assert(out@ =~= old(out)@ + json_of_attrs(attrs));
    }
}

/// Appends the JSON object for one span.
fn append_span(out: &mut String, span: &Span)
    ensures
        final (out)@ == old(out)@ + json_of_span(span@),
{
    out.append("    {\n      \"name\": ");
    append_json_string(out, span.name.as_str());
    out.append(",\n      \"attributes\": ");
    append_attrs(out, span);
    out.append("\n    }");
    proof {
        reveal_strlit("    {\n      \"name\": ");
        reveal_strlit(",\n      \"attributes\": ");
        reveal_strlit("\n    }");
        assert(out@ =~= old(out)@ + json_of_span(span@));
    }
}

/// Renders a whole trace as a pretty-printed JSON document.
pub fn trace_to_json(trace: &Trace) -> (r: String)
    ensures
        r@ == json_of_trace(trace@),
{
    let mut out = String::new();
    out.append("{\n  \"trace_id\": ");
    append_json_string(&mut out, trace.trace_id.as_str());
    out.append(",\n  \"spans\": ");
    let ghost spans = trace@.spans;
    let n = trace.spans.len();
    if n == 0 {
        out.append("[]");
        proof {
            reveal_strlit("[]");
        }
    } else {
        out.append("[\n");
        let ghost opened = out@;
        let mut i: usize = 0;
        while i < n
            invariant
                i <= n,
                n == trace.spans@.len(),
                n > 0,
                spans == trace@.spans,
                spans.len() == n,
                out@ == opened + span_lines(spans.take(i as int)),
            decreases n - i,
        {
            if i > 0 {
                out.append(",\n");
            }
            append_span(&mut out, &trace.spans[i]);
            proof {
                reveal_strlit(",\n");
                assert(spans.take(i + 1).drop_last() =~= spans.take(i as int));
                assert(spans.take(i + 1).last() == spans[i as int]);
                assert(spans[i as int] == trace.spans@[i as int]@);
                if i == 0 {
                    assert(out@ =~= opened + span_lines(spans.take(1)));
                } else {
                    assert(out@ =~= opened + span_lines(spans.take(i + 1)));
                }
            }
            i = i + 1;
        }
        out.append("\n  ]");
        proof {
            reveal_strlit("[\n");
            reveal_strlit("\n  ]");
            assert(spans.take(n as int) =~= spans);
        }
    }
    out.append("\n}");
    proof {
        reveal_strlit("{\n  \"trace_id\": ");
        reveal_strlit(",\n  \"spans\": ");
        reveal_strlit("\n}");
        assert(out@ =~= json_of_trace(trace@));
    }
    out
}

/// Builds a trace from an id and fetched spans, redacting every span
/// before assembly.
pub fn build_redacted_trace(trace_id: &str, spans: &Vec<Span>) -> (r: Trace)
    ensures
        r@.trace_id == trace_id@,
        r@.spans.len() == spans@.len(),
        forall|i: int| 0 <= i < spans@.len() ==> r@.spans[i] == redact_span(spans@[i]@),
{
    let mut redacted: Vec<Span> = Vec::new();
    let n = spans.len();
    let mut i: usize = 0;
    while i < n
        invariant
            i <= n,
            n == spans@.len(),
            redacted@.len() == i,
            forall|j: int| 0 <= j < i ==> redacted@[j]@ == redact_span(spans@[j]@),
        decreases n - i,
    {
        redacted.push(redact(&spans[i]));
        i = i + 1;
    }
    let r = Trace { trace_id: trace_id.to_owned(), spans: redacted };
    r
}

/// Wraps a rendered JSON document in a fenced code block.
pub fn fence_json(body: &str) -> (r: String)
    ensures
        r@ == fenced_json(body@),
{
    let mut out = String::from_str("```json\n");
    out.append(body);
    out.append("\n```");
    proof {
        reveal_strlit("```json\n");
        reveal_strlit("\n```");
        assert(out@ =~= fenced_json(body@));
    }
    out
}

} // verus!

//! Summary formatting: turning a list of traces into one selectable
//! label/selector pair per top-level request span, with graceful defaults
//! for missing or wrongly typed attributes.

use vstd::prelude::*;

use crate::model::{
    method_key, method_key_str, path_key, path_key_str, status_key, status_key_str, value_of,
    AttributeValue, Span, SpanView, Trace, TraceView, ValueModel,
};
use crate::redact::{redact, redact_span};
use crate::text::{i64_to_string, int_label};

verus! {

/// One completion entry handed to the host: a display label, the text the
/// selection inserts (the trace id for a real entry), and whether picking
/// it should run the command.
#[derive(Debug, Clone, PartialEq, Eq)]
pub struct Completion {
    pub label: String,
    pub new_text: String,
    pub run_command: bool,
}

/// Mathematical model of a [`Completion`].
pub struct CompletionView {
    pub label: Seq<char>,
    pub new_text: Seq<char>,
    pub run_command: bool,
}

impl View for Completion {
    type V = CompletionView;

    open spec fn view(&self) -> CompletionView {
        CompletionView {
            label: self.label@,
            new_text: self.new_text@,
            run_command: self.run_command,
        }
    }
}

/// Model of a completion list.
pub open spec fn completions_view(v: Seq<Completion>) -> Seq<CompletionView> {
    Seq::new(v.len(), |i: int| v[i]@)
}

/// The span name that marks a top-level unit of work.
pub open spec fn request_name() -> Seq<char> {
    "request"@
}

/// The exact string constant for [`request_name`].
pub fn request_name_str() -> (r: &'static str)
    ensures
        r@ == request_name(),
{
    "request"
}

/// Label of the synthetic entry shown when no traces exist.
pub open spec fn no_traces_label() -> Seq<char> {
    "No traces found"@
}

/// Insertion text of the synthetic entry shown when no traces exist.
pub open spec fn no_traces_text() -> Seq<char> {
    "No traces found, check if your Fiberplane Studio is running and if there are traces recorded."@
}

/// The synthetic, non-actionable entry returned for an empty trace list.
pub open spec fn no_traces_entry() -> CompletionView {
    CompletionView { label: no_traces_label(), new_text: no_traces_text(), run_command: false }
}

/// The display string for a looked-up status value: a string value stands
/// as itself, an integer renders in decimal, a floating-point value keeps
/// the rendering it arrived with, and anything else (absent key, absent
/// value, opaque value) degrades to "???".
pub open spec fn status_display(v: Option<Option<ValueModel>>) -> Seq<char> {
    match v {
        Some(Some(ValueModel::StringV(s))) => s,
        Some(Some(ValueModel::IntV(n))) => int_label(n),
        Some(Some(ValueModel::DoubleV(r))) => r,
        _ => "???"@,
    }
}

/// The HTTP method shown for a span, defaulting to "UNKNOWN" when the
/// method attribute is absent or not a string.
pub open spec fn method_of(s: SpanView) -> Seq<char> {
    match value_of(s.attrs, method_key()) {
        Some(Some(ValueModel::StringV(v))) => v,
        _ => "UNKNOWN"@,
    }
}

/// The request path shown for a span, defaulting to "/".
pub open spec fn path_of(s: SpanView) -> Seq<char> {
    match value_of(s.attrs, path_key()) {
        Some(Some(ValueModel::StringV(v))) => v,
        _ => "/"@,
    }
}

/// The status code shown for a span.
pub open spec fn status_of(s: SpanView) -> Seq<char> {
    status_display(value_of(s.attrs, status_key()))
}

/// The display label for a span: status, method and path separated by
/// single spaces.
pub open spec fn label_of(s: SpanView) -> Seq<char> {
    status_of(s) + seq![' '] + method_of(s) + seq![' '] + path_of(s)
}

/// The completion entries contributed by one span of the trace with id
/// `trace_id`: exactly one for a top-level request span, none otherwise.
/// The label is computed from the redacted span.
pub open spec fn span_entries(trace_id: Seq<char>, s: SpanView) -> Seq<CompletionView> {
    if s.name == request_name() {
        seq![
            CompletionView {
                label: label_of(redact_span(s)),
                new_text: trace_id,
                run_command: true,
            },
        ]
    } else {
        Seq::empty()
    }
}

/// The entries contributed by a prefix of a trace's spans, in order.
pub open spec fn spans_entries(trace_id: Seq<char>, ss: Seq<SpanView>) -> Seq<CompletionView>
    decreases ss.len(),
{
    if ss.len() == 0 {
        Seq::empty()
    } else {
        spans_entries(trace_id, ss.drop_last()) + span_entries(trace_id, ss.last())
    }
}

/// The entries contributed by one trace.
pub open spec fn trace_entries(t: TraceView) -> Seq<CompletionView> {
    spans_entries(t.trace_id, t.spans)
}

/// All entries for a list of traces, in order.
pub open spec fn summary_entries(ts: Seq<TraceView>) -> Seq<CompletionView>
    decreases ts.len(),
{
    if ts.len() == 0 {
        Seq::empty()
    } else {
        summary_entries(ts.drop_last()) + trace_entries(ts.last())
    }
}

/// Model of a trace list.
pub open spec fn traces_view(ts: Seq<Trace>) -> Seq<TraceView> {
    Seq::new(ts.len(), |i: int| ts[i]@)
}

/// First-match lookup of `key` in an attribute list.
fn lookup<'a>(attrs: &'a Vec<(String, Option<AttributeValue>)>, key: &str) -> (r: Option<
    &'a Option<AttributeValue>,
>)
    ensures
        match r {
            None => value_of(crate::model::attrs_view(attrs@), key@) is None,
            Some(v) => value_of(crate::model::attrs_view(attrs@), key@) == Some(
                crate::model::opt_value_view(*v),
            ),
        },
{
    let ghost full = crate::model::attrs_view(attrs@);
    let n = attrs.len();
    let mut i: usize = 0;
    while i < n
        invariant
            i <= n,
            n == attrs@.len(),
            full == crate::model::attrs_view(attrs@),
            full.len() == n,
            forall|j: int| 0 <= j < i ==> full[j].0 != key@,
        decreases n - i,
    {
        if crate::text::str_eq(attrs[i].0.as_str(), key) {
            proof {
                lemma_value_of_skip_absent(full, i as int, key@);
            }
            return Some(&attrs[i].1);
        }
        i = i + 1;
    }
    proof {
        lemma_value_of_skip_absent(full, n as int, key@);
    }
    None
}

/// First-match lookup ignores a key-free prefix: the lookup of `k` in `a`
/// is decided at the first index at or past `i` whose key is `k`, if any.
proof fn lemma_value_of_skip_absent(
    a: Seq<(Seq<char>, Option<ValueModel>)>,
    i: int,
    k: Seq<char>,
)
    requires
        0 <= i <= a.len(),
        forall|j: int| 0 <= j < i ==> a[j].0 != k,
    ensures
        i < a.len() && a[i].0 == k ==> value_of(a, k) == Some(a[i].1),
        i == a.len() ==> value_of(a, k) is None,
    decreases i,
{
    if i > 0 {
        assert(a[0].0 != k);
        assert forall|j: int| 0 <= j < i - 1 implies a.drop_first()[j].0 != k by {
            assert(a.drop_first()[j] == a[j + 1]);
        }
        lemma_value_of_skip_absent(a.drop_first(), i - 1, k);
        if i < a.len() && a[i].0 == k {
            assert(a.drop_first()[i - 1] == a[i]);
        }
    }
}

/// The method label for a (redacted) span.
fn method_label(span: &Span) -> (r: String)
    ensures
        r@ == method_of(span@),
{
    match lookup(&span.attributes, method_key_str()) {
        Some(Some(AttributeValue::StringValue(s))) => s.clone(),
        _ => String::from_str("UNKNOWN"),
    }
}

/// The path label for a (redacted) span.
fn path_label(span: &Span) -> (r: String)
    ensures
        r@ == path_of(span@),
{
    match lookup(&span.attributes, path_key_str()) {
        Some(Some(AttributeValue::StringValue(s))) => s.clone(),
        _ => String::from_str("/"),
    }
}

/// The status label for a (redacted) span.
fn status_label(span: &Span) -> (r: String)
    ensures
        r@ == status_of(span@),
{
    match lookup(&span.attributes, status_key_str()) {
        Some(Some(AttributeValue::StringValue(s))) => s.clone(),
        Some(Some(AttributeValue::IntValue(n))) => i64_to_string(*n),
        Some(Some(AttributeValue::DoubleValue(r))) => r.clone(),
        _ => String::from_str("???"),
    }
}

/// The display label for a (redacted) span: status, method, path.
fn span_label(span: &Span) -> (r: String)
    ensures
        r@ == label_of(span@),
{
    let mut r = status_label(span);
    r.append(" ");
    let m = method_label(span);
    r.append(m.as_str());
    r.append(" ");
    let p = path_label(span);
    r.append(p.as_str());
    proof {
        reveal_strlit(" ");
        assert(" "@ =~= seq![' ']);
        assert(r@ =~= label_of(span@));
    }
    r
}

/// Builds the completion list for a trace listing.
///
/// An empty listing yields exactly one synthetic, non-actionable "no
/// traces found" entry. Otherwise every span named "request" contributes
/// one entry whose label is the status, method and path read from the
/// redacted span, and whose insertion text is its trace's id; spans with
/// other names are merely not displayed, and multiple request spans of one
/// trace share that trace's id.
pub fn summarize(traces: &Vec<Trace>) -> (r: Vec<Completion>)
    ensures
        traces@.len() == 0 ==> completions_view(r@) =~= seq![no_traces_entry()],
        traces@.len() > 0 ==> completions_view(r@) == summary_entries(traces_view(traces@)),
{
    if traces.len() == 0 {
        let entry = Completion {
            label: String::from_str("No traces found"),
            new_text: String::from_str(
                "No traces found, check if your Fiberplane Studio is running and if there are traces recorded.",
            ),
            run_command: false,
        };
        let mut r: Vec<Completion> = Vec::new();
        r.push(entry);
        proof {
            assert(completions_view(r@) =~= seq![no_traces_entry()]);
        }
        return r;
    }
    let ghost full = traces_view(traces@);
    let mut r: Vec<Completion> = Vec::new();
    let n = traces.len();
    let mut i: usize = 0;
    while i < n
        invariant
            i <= n,
            n == traces@.len(),
            full == traces_view(traces@),
            full.len() == n,
            completions_view(r@) == summary_entries(full.take(i as int)),
        decreases n - i,
    {
        let trace = &traces[i];
        let m = trace.spans.len();
        let mut j: usize = 0;
        while j < m
            invariant
                j <= m,
                i < n,
                n == traces@.len(),
                m == trace.spans@.len(),
                trace == traces@[i as int],
                full == traces_view(traces@),
                full.len() == n,
                completions_view(r@) == summary_entries(full.take(i as int)) + spans_entries(
                    full[i as int].trace_id,
                    full[i as int].spans.take(j as int),
                ),
            decreases m - j,
        {
            let ghost prev = completions_view(r@);
            let span = &trace.spans[j];
            let stripped = redact(span);
            if crate::text::str_eq(stripped.name.as_str(), request_name_str()) {
                let label = span_label(&stripped);
                r.push(
                    Completion { label, new_text: trace.trace_id.clone(), run_command: true },
                );
            }
            proof {
                let spans = full[i as int].spans;
                assert(spans.take(j + 1).drop_last() =~= spans.take(j as int));
                assert(spans.take(j + 1).last() == spans[j as int]);
                assert(spans[j as int] == span@);
                assert(completions_view(r@) =~= prev + span_entries(
                    full[i as int].trace_id,
                    span@,
                ));
            }
            j = j + 1;
        }
        proof {
            assert(full.take(i + 1).drop_last() =~= full.take(i as int));
            assert(full.take(i + 1).last() == full[i as int]);
            let ghost tspans = full[i as int].spans;
            assert(tspans.take(tspans.len() as int) =~= tspans);
        }
        i = i + 1;
    }
    proof {
        assert(full.take(n as int) =~= full);
    }
    r
}

/// A span's label is unaffected by redaction: the method, path and status
/// fields that labels are built from are outside the sensitive-key set, so
/// a label can never carry a sensitive attribute's true value — only the
/// three display fields.
pub proof fn lemma_label_ignores_redaction(s: SpanView)
    ensures
        label_of(redact_span(s)) == label_of(s),
{
    crate::model::lemma_keys_distinct();
    crate::redact::lemma_redact_preserves_other_keys(s.attrs, method_key());
    crate::redact::lemma_redact_preserves_other_keys(s.attrs, path_key());
    crate::redact::lemma_redact_preserves_other_keys(s.attrs, status_key());
}

/// A string-typed status and an integer-typed status display alike
/// whenever the string holds the integer's decimal rendering.
pub proof fn lemma_status_display_agrees(n: int, s: Seq<char>)
    requires
        s == int_label(n),
    ensures
        status_display(Some(Some(ValueModel::StringV(s)))) == status_display(
            Some(Some(ValueModel::IntV(n))),
        ),
{
}

} // verus!

//! The host-facing command surface: argument validation and the decisions
//! of the "list traces" and "render trace" operations. The host performs
//! the actual network fetch and JSON decoding and hands the outcome in as
//! a plain value; everything here is verified.

use vstd::prelude::*;
use vstd::utf8::encode_utf8;

use crate::model::{Span, SpanView, Trace};
use crate::redact::redact_span;
use crate::render::{build_redacted_trace, fence_json, fenced_json, json_of_trace, trace_to_json};
use crate::summary::{
    completions_view, no_traces_entry, summarize, summary_entries, traces_view, Completion,
    CompletionView,
};

verus! {

/// How a fetch performed by the host ended when it did not produce a
/// value: the transport failed, or the response body did not decode.
#[derive(Debug, Clone, PartialEq, Eq)]
pub enum FetchFailure {
    Transport(String),
    Decode(String),
}

/// Mathematical model of a [`FetchFailure`].
pub enum FetchFailureView {
    Transport(Seq<char>),
    Decode(Seq<char>),
}

impl View for FetchFailure {
    type V = FetchFailureView;

    open spec fn view(&self) -> FetchFailureView {
        match self {
            FetchFailure::Transport(m) => FetchFailureView::Transport(m@),
            FetchFailure::Decode(m) => FetchFailureView::Decode(m@),
        }
    }
}

/// The error kinds the command surface can report. `SerializeError` is
/// defensive: the verified renderer is total, so no command here produces
/// it.
#[derive(Debug, Clone, PartialEq, Eq)]
pub enum Error {
    FetchError(String),
    DecodeError(String),
    InvalidArgument(String),
    SerializeError(String),
    UnknownCommand(String),
}

/// Mathematical model of an [`Error`].
pub enum ErrorView {
    FetchError(Seq<char>),
    DecodeError(Seq<char>),
    InvalidArgument(Seq<char>),
    SerializeError(Seq<char>),
    UnknownCommand(Seq<char>),
}

impl View for Error {
    type V = ErrorView;

    open spec fn view(&self) -> ErrorView {
        match self {
            Error::FetchError(m) => ErrorView::FetchError(m@),
            Error::DecodeError(m) => ErrorView::DecodeError(m@),
            Error::InvalidArgument(m) => ErrorView::InvalidArgument(m@),
            Error::SerializeError(m) => ErrorView::SerializeError(m@),
            Error::UnknownCommand(m) => ErrorView::UnknownCommand(m@),
        }
    }
}

/// The descriptive message shown to the user for each error.
pub open spec fn error_message(e: ErrorView) -> Seq<char> {
    match e {
        ErrorView::FetchError(m) => "Failed to fetch: "@ + m,
        ErrorView::DecodeError(m) => "Failed to parse JSON: "@ + m,
        ErrorView::InvalidArgument(m) => m,
        ErrorView::SerializeError(m) => "Failed to format JSON: "@ + m,
        ErrorView::UnknownCommand(c) => "unknown slash command: \""@ + c + "\""@,
    }
}

impl Error {
    /// Renders the error as its descriptive message.
    pub fn message(&self) -> (r: String)
        ensures
            r@ == error_message(self@),
    {
        match self {
            Error::FetchError(m) => {
                let mut r = String::from_str("Failed to fetch: ");
                r.append(m.as_str());
                proof {
                    reveal_strlit("Failed to fetch: ");
                }
                r
            },
            Error::DecodeError(m) => {
                let mut r = String::from_str("Failed to parse JSON: ");
                r.append(m.as_str());
                proof {
                    reveal_strlit("Failed to parse JSON: ");
                }
                r
            },
            Error::InvalidArgument(m) => m.clone(),
            Error::SerializeError(m) => {
                let mut r = String::from_str("Failed to format JSON: ");
                r.append(m.as_str());
                proof {
                    reveal_strlit("Failed to format JSON: ");
                }
                r
            },
            Error::UnknownCommand(c) => {
                let mut r = String::from_str("unknown slash command: \"");
                r.append(c.as_str());
                r.append("\"");
                proof {
                    reveal_strlit("unknown slash command: \"");
                    reveal_strlit("\"");
                    assert(r@ =~= error_message(self@));
                }
                r
            },
        }
    }
}

/// Whether `c` is an ASCII hexadecimal digit: `0`-`9` (code points 48 to
/// 57), `a`-`f` (97 to 102) or `A`-`F` (65 to 70).
pub open spec fn is_hex_digit_char(c: char) -> bool {
    (48 <= (c as u32) && (c as u32) <= 57) || (97 <= (c as u32) && (c as u32) <= 102) || (65 <= (
    c as u32) && (c as u32) <= 70)
}

/// A well-formed trace id: a non-empty string of hexadecimal digits.
pub open spec fn valid_hex_id(s: Seq<char>) -> bool {
    s.len() > 0 && forall|i: int| 0 <= i < s.len() ==> is_hex_digit_char(s[i])
}

/// Checks that `s` is a well-formed hexadecimal trace id.
pub fn check_hex_id(s: &str) -> (r: bool)
    ensures
        r == valid_hex_id(s@),
{
    let n = s.unicode_len();
    if n == 0 {
        return false;
    }
    let mut i: usize = 0;
    while i < n
        invariant
            i <= n,
            n == s@.len(),
            forall|j: int| 0 <= j < i ==> is_hex_digit_char(s@[j]),
        decreases n - i,
    {
        let c = s.get_char(i);
        let u = c as u32;
        if !((48 <= u && u <= 57) || (97 <= u && u <= 102) || (65 <= u && u <= 70)) {
            return false;
        }
        i = i + 1;
    }
    true
}

/// The command name the host surface answers to.
pub open spec fn trace_command() -> Seq<char> {
    "trace"@
}

/// The exact string constant for [`trace_command`].
pub fn trace_command_str() -> (r: &'static str)
    ensures
        r@ == trace_command(),
{
    "trace"
}

/// The fixed local collector address. It is configuration of this core,
/// not exposed to the end user.
pub open spec fn base_url() -> Seq<char> {
    "http://localhost:8788"@
}

/// The URL of the collector's trace-listing endpoint.
pub open spec fn traces_url() -> Seq<char> {
    base_url() + "/v1/traces"@
}

/// Builds the trace-listing URL for the host's fetch.
pub fn traces_url_string() -> (r: String)
    ensures
        r@ == traces_url(),
{
    let mut r = String::from_str("http://localhost:8788");
    r.append("/v1/traces");
    proof {
        reveal_strlit("http://localhost:8788");
        reveal_strlit("/v1/traces");
    }
    r
}

/// The URL of the collector's span-listing endpoint for `trace_id`.
pub open spec fn spans_url(trace_id: Seq<char>) -> Seq<char> {
    base_url() + "/v1/traces/"@ + trace_id + "/spans"@
}

/// Builds the span-listing URL for the host's fetch.
pub fn spans_url_string(trace_id: &str) -> (r: String)
    ensures
        r@ == spans_url(trace_id@),
{
    let mut r = String::from_str("http://localhost:8788");
    r.append("/v1/traces/");
    r.append(trace_id);
    r.append("/spans");
    proof {
        reveal_strlit("http://localhost:8788");
        reveal_strlit("/v1/traces/");
        reveal_strlit("/spans");
        assert(r@ =~= spans_url(trace_id@));
    }
    r
}

/// What the listing operation owes for each command name and fetch
/// outcome: an unknown command is refused by name whatever the collector
/// did, a failed fetch surfaces as a fetch or decode error, an empty
/// listing yields exactly the synthetic non-actionable entry, and
/// otherwise the summary entries.
pub open spec fn list_outcome(cmd: Seq<char>, fetched: Result<Seq<Trace>, FetchFailureView>) -> Result<
    Seq<CompletionView>,
    ErrorView,
> {
    if cmd != trace_command() {
        Err(ErrorView::UnknownCommand(cmd))
    } else {
        match fetched {
            Err(FetchFailureView::Transport(m)) => Err(ErrorView::FetchError(m)),
            Err(FetchFailureView::Decode(m)) => Err(ErrorView::DecodeError(m)),
            Ok(traces) => if traces.len() == 0 {
                Ok(seq![no_traces_entry()])
            } else {
                Ok(summary_entries(traces_view(traces)))
            },
        }
    }
}

/// The listing entry point: given the command name and the outcome of the
/// host's fetch of the trace listing, returns the completion entries or
/// the error to show. An unknown command name is refused regardless of
/// the collector's state; a genuine fetch or decode failure is propagated
/// and is never mistaken for an empty listing.
pub fn list_command(command: &str, fetched: Result<Vec<Trace>, FetchFailure>) -> (r: Result<
    Vec<Completion>,
    Error,
>)
    ensures
        (match r {
            Ok(v) => Ok::<_, ErrorView>(completions_view(v@)),
            Err(e) => Err::<Seq<CompletionView>, _>(e@),
        }) == list_outcome(
            command@,
            match fetched {
                Ok(ts) => Ok::<_, FetchFailureView>(ts@),
                Err(f) => Err::<Seq<Trace>, _>(f@),
            },
        ),
{
    if !crate::text::str_eq(command, trace_command_str()) {
        return Err(Error::UnknownCommand(command.to_owned()));
    }
    let traces = match fetched {
        Err(FetchFailure::Transport(m)) => {
            return Err(Error::FetchError(m));
        },
        Err(FetchFailure::Decode(m)) => {
            return Err(Error::DecodeError(m));
        },
        Ok(traces) => traces,
    };
    let r = summarize(&traces);
    proof {
        if traces@.len() > 0 {
            assert(completions_view(r@) == summary_entries(traces_view(traces@)));
        }
    }
    Ok(r)
}

/// What the render argument check owes: an unknown command is refused by
/// name, missing arguments are an invalid-argument error carrying "no
/// trace id provided", a malformed (non-hexadecimal) first argument an
/// invalid-argument error carrying "trace id is invalid", and otherwise
/// the trace id to fetch.
pub open spec fn render_begin_outcome(cmd: Seq<char>, args: Seq<Seq<char>>) -> Result<
    Seq<char>,
    ErrorView,
> {
    if cmd != trace_command() {
        Err(ErrorView::UnknownCommand(cmd))
    } else if args.len() == 0 {
        Err(ErrorView::InvalidArgument("no trace id provided"@))
    } else if !valid_hex_id(args[0]) {
        Err(ErrorView::InvalidArgument("trace id is invalid"@))
    } else {
        Ok(args[0])
    }
}

/// Model of an argument list.
pub open spec fn args_view(args: Seq<String>) -> Seq<Seq<char>> {
    Seq::new(args.len(), |i: int| args[i]@)
}

/// The first half of the render entry point: validates the command name
/// and the trace id argument. Only when it returns `Ok` does the host go
/// on to fetch the spans over the network; a missing or malformed id is
/// rejected here, before any network call.
pub fn render_begin(command: &str, args: &Vec<String>) -> (r: Result<String, Error>)
    ensures
        (match r {
            Ok(id) => Ok::<_, ErrorView>(id@),
            Err(e) => Err::<Seq<char>, _>(e@),
        }) == render_begin_outcome(command@, args_view(args@)),
        args@.len() == 0 && command@ == trace_command() ==> (r matches Err(e) && e@
            == ErrorView::InvalidArgument("no trace id provided"@)),
{
    if !crate::text::str_eq(command, trace_command_str()) {
        return Err(Error::UnknownCommand(command.to_owned()));
    }
    if args.len() == 0 {
        return Err(Error::InvalidArgument(String::from_str("no trace id provided")));
    }
    let id = &args[0];
    if !check_hex_id(id.as_str()) {
        return Err(Error::InvalidArgument(String::from_str("trace id is invalid")));
    }
    Ok(id.clone())
}

/// A render invocation without a trace id argument never reaches the
/// network: the span fetch is performed by the host only after
/// [`render_begin`] returns `Ok`, and with an empty argument list
/// [`render_begin`] returns an error for every command name — for the
/// trace command itself, the invalid-argument error saying "no trace id
/// provided".
pub proof fn lemma_missing_id_is_rejected_before_any_fetch(cmd: Seq<char>, args: Seq<Seq<char>>)
    requires
        args.len() == 0,
    ensures
        !(render_begin_outcome(cmd, args) is Ok),
        cmd == trace_command() ==> render_begin_outcome(cmd, args) == Err::<Seq<char>, _>(
            ErrorView::InvalidArgument("no trace id provided"@),
        ),
{
}

/// One labelled byte range of a command's output text.
#[derive(Debug, Clone, PartialEq, Eq)]
pub struct Section {
    pub label: String,
    pub start: usize,
    pub end: usize,
}

/// Mathematical model of a [`Section`].
pub struct SectionView {
    pub label: Seq<char>,
    pub start: int,
    pub end: int,
}

impl View for Section {
    type V = SectionView;

    open spec fn view(&self) -> SectionView {
        SectionView { label: self.label@, start: self.start as int, end: self.end as int }
    }
}

/// The rendered output of a command: the text to insert and its labelled
/// sections.
#[derive(Debug, Clone, PartialEq, Eq)]
pub struct CommandOutput {
    pub sections: Vec<Section>,
    pub text: String,
}

/// Mathematical model of a [`CommandOutput`].
pub struct CommandOutputView {
    pub sections: Seq<SectionView>,
    pub text: Seq<char>,
}

impl View for CommandOutput {
    type V = CommandOutputView;

    open spec fn view(&self) -> CommandOutputView {
        CommandOutputView {
            sections: Seq::new(self.sections@.len(), |i: int| self.sections@[i]@),
            text: self.text@,
        }
    }
}

/// The length in bytes of the UTF-8 encoding of `s`, as the byte-range
/// bounds of a section measure it.
pub open spec fn byte_len(s: Seq<char>) -> int {
    encode_utf8(s).len() as usize as int
}

/// The label of a rendered trace section.
pub open spec fn section_label(trace_id: Seq<char>) -> Seq<char> {
    "Trace: "@ + trace_id
}

/// The spans of a trace after redacting each one.
pub open spec fn redacted_spans(spans: Seq<SpanView>) -> Seq<SpanView> {
    Seq::new(spans.len(), |i: int| redact_span(spans[i]))
}

/// The full rendered text for a trace id and its fetched spans: the
/// pretty-printed JSON of the redacted trace in a fenced code block.
pub open spec fn render_text(trace_id: Seq<char>, spans: Seq<SpanView>) -> Seq<char> {
    fenced_json(
        json_of_trace(
            crate::model::TraceView { trace_id: trace_id, spans: redacted_spans(spans) },
        ),
    )
}

/// What the render completion owes: a failed fetch surfaces as a fetch or
/// decode error; otherwise the output text is the fenced JSON of the
/// redacted trace, covered by a single section labelled with the trace
/// id.
pub open spec fn render_finish_outcome(
    trace_id: Seq<char>,
    fetched: Result<Seq<SpanView>, FetchFailureView>,
) -> Result<CommandOutputView, ErrorView> {
    match fetched {
        Err(FetchFailureView::Transport(m)) => Err(ErrorView::FetchError(m)),
        Err(FetchFailureView::Decode(m)) => Err(ErrorView::DecodeError(m)),
        Ok(spans) => Ok(
            CommandOutputView {
                sections: seq![
                    SectionView {
                        label: section_label(trace_id),
                        start: 0,
                        end: byte_len(render_text(trace_id, spans)),
                    },
                ],
                text: render_text(trace_id, spans),
            },
        ),
    }
}

/// Model of a fetched span list.
pub open spec fn spans_view(spans: Seq<Span>) -> Seq<SpanView> {
    Seq::new(spans.len(), |i: int| spans[i]@)
}

/// The second half of the render entry point: given the validated trace
/// id and the outcome of the host's span fetch, redacts every span,
/// serialises the trace and wraps it for insertion.
pub fn render_finish(trace_id: &str, fetched: Result<Vec<Span>, FetchFailure>) -> (r: Result<
    CommandOutput,
    Error,
>)
    ensures
        (match r {
            Ok(out) => Ok::<_, ErrorView>(out@),
            Err(e) => Err::<CommandOutputView, _>(e@),
        }) == render_finish_outcome(
            trace_id@,
            match fetched {
                Ok(spans) => Ok::<_, FetchFailureView>(spans_view(spans@)),
                Err(f) => Err::<Seq<SpanView>, _>(f@),
            },
        ),
{
    let spans = match fetched {
        Err(FetchFailure::Transport(m)) => {
            return Err(Error::FetchError(m));
        },
        Err(FetchFailure::Decode(m)) => {
            return Err(Error::DecodeError(m));
        },
        Ok(spans) => spans,
    };
    let trace = build_redacted_trace(trace_id, &spans);
    proof {
        assert(trace@.spans =~= redacted_spans(spans_view(spans@)));
    }
    let json = trace_to_json(&trace);
    let text = fence_json(json.as_str());
    let end = text.as_str().len();
    let mut label = String::from_str("Trace: ");
    label.append(trace_id);
    proof {
        reveal_strlit("Trace: ");
    }
    let mut sections: Vec<Section> = Vec::new();
    sections.push(Section { label, start: 0, end });
    let out = CommandOutput { sections, text };
    proof {
        let spec_out = render_finish_outcome(
            trace_id@,
            Ok::<_, FetchFailureView>(spans_view(spans@)),
        );
        assert(out@.sections =~= spec_out->Ok_0.sections);
        assert(out@ =~= spec_out->Ok_0);
    }
    Ok(out)
}

} // verus!

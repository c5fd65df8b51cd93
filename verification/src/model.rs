//! Data model for traces and spans as delivered by the collector, together
//! with the spec-level view types that contracts are stated over.

use vstd::prelude::*;

verus! {

/// One typed attribute value as it appears on the wire.
///
/// The collector may emit a string, an integer or a floating-point number
/// for an attribute; anything else is treated as opaque. A floating-point
/// value is carried as its decimal rendering, produced at the decoding
/// boundary: the pipeline only ever displays such a value, never computes
/// with it.
#[derive(Debug, Clone, PartialEq, Eq)]
pub enum AttributeValue {
    StringValue(String),
    IntValue(i64),
    DoubleValue(String),
    Other,
}

/// Mathematical model of an [`AttributeValue`].
pub enum ValueModel {
    StringV(Seq<char>),
    IntV(int),
    DoubleV(Seq<char>),
    OtherV,
}

impl View for AttributeValue {
    type V = ValueModel;

    open spec fn view(&self) -> ValueModel {
        match self {
            AttributeValue::StringValue(s) => ValueModel::StringV(s@),
            AttributeValue::IntValue(n) => ValueModel::IntV(*n as int),
            AttributeValue::DoubleValue(r) => ValueModel::DoubleV(r@),
            AttributeValue::Other => ValueModel::OtherV,
        }
    }
}

/// Model of a stored attribute value, which may itself be absent.
pub open spec fn opt_value_view(v: Option<AttributeValue>) -> Option<ValueModel> {
    match v {
        Some(v) => Some(v@),
        None => None,
    }
}

/// Model of one attribute entry: a key and its (possibly absent) value.
pub open spec fn entry_view(e: (String, Option<AttributeValue>)) -> (Seq<char>, Option<
    ValueModel,
>) {
    (e.0@, opt_value_view(e.1))
}

/// Model of a whole attribute map, in its stored order.
pub open spec fn attrs_view(a: Seq<(String, Option<AttributeValue>)>) -> Seq<
    (Seq<char>, Option<ValueModel>),
> {
    Seq::new(a.len(), |i: int| entry_view(a[i]))
}

/// One recorded operation: a name and its attribute map.
///
/// The attribute map is kept as a sequence of key/value entries in the
/// order the decoder produced them; lookups take the first entry with a
/// matching key.
#[derive(Debug, Clone, PartialEq, Eq)]
pub struct Span {
    pub name: String,
    pub attributes: Vec<(String, Option<AttributeValue>)>,
}

/// Mathematical model of a [`Span`].
pub struct SpanView {
    pub name: Seq<char>,
    pub attrs: Seq<(Seq<char>, Option<ValueModel>)>,
}

impl View for Span {
    type V = SpanView;

    open spec fn view(&self) -> SpanView {
        SpanView { name: self.name@, attrs: attrs_view(self.attributes@) }
    }
}

/// A trace: an opaque hex identifier and its spans.
#[derive(Debug, Clone, PartialEq, Eq)]
pub struct Trace {
    pub trace_id: String,
    pub spans: Vec<Span>,
}

/// Mathematical model of a [`Trace`].
pub struct TraceView {
    pub trace_id: Seq<char>,
    pub spans: Seq<SpanView>,
}

impl View for Trace {
    type V = TraceView;

    open spec fn view(&self) -> TraceView {
        TraceView {
            trace_id: self.trace_id@,
            spans: Seq::new(self.spans@.len(), |i: int| self.spans@[i]@),
        }
    }
}

/// Whether `a` holds an entry with key `k`.
pub open spec fn has_key(a: Seq<(Seq<char>, Option<ValueModel>)>, k: Seq<char>) -> bool {
    exists|i: int| 0 <= i < a.len() && a[i].0 == k
}

/// First-match lookup: `None` when the key is absent, otherwise the stored
/// (possibly absent) value of the first entry with key `k`.
pub open spec fn value_of(a: Seq<(Seq<char>, Option<ValueModel>)>, k: Seq<char>) -> Option<
    Option<ValueModel>,
> decreases a.len() {
    if a.len() == 0 {
        None
    } else if a[0].0 == k {
        Some(a[0].1)
    } else {
        value_of(a.drop_first(), k)
    }
}

/// Key under which the collector records captured environment variables.
pub open spec fn env_key() -> Seq<char> {
    "fpx.http.request.env"@
}

/// The exact string constant for [`env_key`].
pub fn env_key_str() -> (r: &'static str)
    ensures
        r@ == env_key(),
{
    "fpx.http.request.env"
}

/// Key under which the collector records the authorization header.
pub open spec fn authorization_key() -> Seq<char> {
    "http.request.header.authorization"@
}

/// The exact string constant for [`authorization_key`].
pub fn authorization_key_str() -> (r: &'static str)
    ensures
        r@ == authorization_key(),
{
    "http.request.header.authorization"
}

/// Key under which the collector records a connection-string header.
pub open spec fn connection_string_key() -> Seq<char> {
    "http.request.header.neon-connection-string"@
}

/// The exact string constant for [`connection_string_key`].
pub fn connection_string_key_str() -> (r: &'static str)
    ensures
        r@ == connection_string_key(),
{
    "http.request.header.neon-connection-string"
}

/// Key under which the collector records the HTTP request method.
pub open spec fn method_key() -> Seq<char> {
    "http.request.method"@
}

/// The exact string constant for [`method_key`].
pub fn method_key_str() -> (r: &'static str)
    ensures
        r@ == method_key(),
{
    "http.request.method"
}

/// Key under which the collector records the request pathname.
pub open spec fn path_key() -> Seq<char> {
    "fpx.http.request.pathname"@
}

/// The exact string constant for [`path_key`].
pub fn path_key_str() -> (r: &'static str)
    ensures
        r@ == path_key(),
{
    "fpx.http.request.pathname"
}

/// Key under which the collector records the response status code.
pub open spec fn status_key() -> Seq<char> {
    "http.response.status_code"@
}

/// The exact string constant for [`status_key`].
pub fn status_key_str() -> (r: &'static str)
    ensures
        r@ == status_key(),
{
    "http.response.status_code"
}

/// The six attribute keys the pipeline reads are pairwise distinct
/// strings.
pub proof fn lemma_keys_distinct()
    ensures
        env_key() != authorization_key(),
        env_key() != connection_string_key(),
        authorization_key() != connection_string_key(),
        method_key() != env_key(),
        method_key() != authorization_key(),
        method_key() != connection_string_key(),
        path_key() != env_key(),
        path_key() != authorization_key(),
        path_key() != connection_string_key(),
        status_key() != env_key(),
        status_key() != authorization_key(),
        status_key() != connection_string_key(),
        method_key() != path_key(),
        method_key() != status_key(),
        path_key() != status_key(),
{
    reveal_strlit("fpx.http.request.env");
    reveal_strlit("http.request.header.authorization");
    reveal_strlit("http.request.header.neon-connection-string");
    reveal_strlit("http.request.method");
    reveal_strlit("fpx.http.request.pathname");
    reveal_strlit("http.response.status_code");
    assert(env_key().len() == 20);
    assert(authorization_key().len() == 33);
    assert(connection_string_key().len() == 42);
    assert(method_key().len() == 19);
    assert(path_key().len() == 25);
    assert(status_key().len() == 25);
    assert(path_key()[0] == 'f');
    assert(status_key()[0] == 'h');
    assert(env_key()[0] == 'f');
}

/// The token that replaces a masked sensitive value.
pub open spec fn mask() -> Seq<char> {
    "*****"@
}

/// The exact string constant for [`mask`].
pub fn mask_str() -> (r: &'static str)
    ensures
        r@ == mask(),
{
    "*****"
}

} // verus!

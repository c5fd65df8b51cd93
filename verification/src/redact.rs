//! Redaction: a pure, total pass over a span's attribute map that removes
//! the captured-environment entry and masks the values of the
//! authorization and connection-string entries.

use vstd::prelude::*;

use crate::model::{
    attrs_view, authorization_key, authorization_key_str, connection_string_key,
    connection_string_key_str, entry_view, env_key, env_key_str, has_key, mask, mask_str,
    opt_value_view, value_of, AttributeValue, Span, SpanView, ValueModel,
};

verus! {

/// Whether `k` is one of the keys whose value must never survive
/// redaction in the clear.
pub open spec fn is_masked_key(k: Seq<char>) -> bool {
    k == authorization_key() || k == connection_string_key()
}

/// What redaction makes of one attribute entry: the environment entry is
/// dropped, a masked key keeps its key but gets the mask token as value,
/// anything else passes through unchanged.
pub open spec fn redact_entry(e: (Seq<char>, Option<ValueModel>)) -> Seq<
    (Seq<char>, Option<ValueModel>),
> {
    if e.0 == env_key() {
        Seq::empty()
    } else if is_masked_key(e.0) {
        seq![(e.0, Some(ValueModel::StringV(mask())))]
    } else {
        seq![e]
    }
}

/// Redaction of a whole attribute map, entry by entry, keeping order.
pub open spec fn redact_attrs(a: Seq<(Seq<char>, Option<ValueModel>)>) -> Seq<
    (Seq<char>, Option<ValueModel>),
> decreases a.len() {
    if a.len() == 0 {
        Seq::empty()
    } else {
        redact_attrs(a.drop_last()) + redact_entry(a.last())
    }
}

/// Redaction of a span: the name is kept, the attribute map is redacted.
pub open spec fn redact_span(s: SpanView) -> SpanView {
    SpanView { name: s.name, attrs: redact_attrs(s.attrs) }
}

/// Returns a copy of `span` with its attribute map redacted: the
/// environment entry removed, authorization and connection-string values
/// replaced by the mask token, everything else unchanged.
pub fn redact(span: &Span) -> (r: Span)
    ensures
        r@ == redact_span(span@),
{
    let mut out: Vec<(String, Option<AttributeValue>)> = Vec::new();
    let n = span.attributes.len();
    let mut i: usize = 0;
    while i < n
        invariant
            i <= n,
            n == span.attributes.len(),
            attrs_view(out@) == redact_attrs(attrs_view(span.attributes@).take(i as int)),
        decreases n - i,
    {
        let key = &span.attributes[i].0;
        let ghost prev = attrs_view(out@);
        if crate::text::str_eq(key.as_str(), env_key_str()) {
            // dropped entirely
        } else if crate::text::str_eq(key.as_str(), authorization_key_str()) || crate::text::str_eq(
            key.as_str(),
            connection_string_key_str(),
        ) {
            out.push((key.clone(), Some(AttributeValue::StringValue(mask_str().to_owned()))));
        } else {
            let entry = &span.attributes[i];
            out.push((entry.0.clone(), clone_value(&entry.1)));
        }
        proof {
            let full = attrs_view(span.attributes@);
            assert(full.take(i + 1).drop_last() =~= full.take(i as int));
            assert(full.take(i + 1).last() == entry_view(span.attributes@[i as int]));
            assert(attrs_view(out@) =~= prev + redact_entry(full[i as int]));
        }
        i = i + 1;
    }
    proof {
        assert(attrs_view(span.attributes@).take(n as int) =~= attrs_view(span.attributes@));
    }
    let r = Span { name: span.name.clone(), attributes: out };
    proof {
        assert(r@ =~= redact_span(span@)) by {
            assert(r@.attrs =~= redact_span(span@).attrs);
        }
    }
    r
}

/// A copy of an optional attribute value, equal to the original in model.
fn clone_value(v: &Option<AttributeValue>) -> (r: Option<AttributeValue>)
    ensures
        opt_value_view(r) == opt_value_view(*v),
{
    match v {
        None => None,
        Some(AttributeValue::StringValue(s)) => Some(AttributeValue::StringValue(s.clone())),
        Some(AttributeValue::IntValue(n)) => Some(AttributeValue::IntValue(*n)),
        Some(AttributeValue::DoubleValue(r)) => Some(AttributeValue::DoubleValue(r.clone())),
        Some(AttributeValue::Other) => Some(AttributeValue::Other),
    }
}

/// After redaction the environment-variable key is absent entirely.
pub proof fn lemma_redact_removes_env(a: Seq<(Seq<char>, Option<ValueModel>)>)
    ensures
        !has_key(redact_attrs(a), env_key()),
    decreases a.len(),
{
    if a.len() > 0 {
        lemma_redact_removes_env(a.drop_last());
        let r = redact_attrs(a.drop_last()) + redact_entry(a.last());
        assert forall|i: int| 0 <= i < r.len() implies r[i].0 != env_key() by {
            if i < redact_attrs(a.drop_last()).len() {
                assert(!has_key(redact_attrs(a.drop_last()), env_key()));
            }
        }
    }
}

/// After redaction every entry under a masked key (authorization or
/// connection string) carries exactly the mask token, never the original
/// value; in particular a first-match lookup of such a key yields the mask
/// whenever the key was present at all.
pub proof fn lemma_redact_masks_sensitive(a: Seq<(Seq<char>, Option<ValueModel>)>, k: Seq<char>)
    requires
        is_masked_key(k),
    ensures
        forall|i: int|
            0 <= i < redact_attrs(a).len() && redact_attrs(a)[i].0 == k ==> redact_attrs(a)[i].1
                == Some(ValueModel::StringV(mask())),
        has_key(a, k) ==> value_of(redact_attrs(a), k) == Some(
            Some(ValueModel::StringV(mask())),
        ),
    decreases a.len(),
{
    if a.len() > 0 {
        lemma_redact_masks_sensitive(a.drop_last(), k);
        crate::model::lemma_keys_distinct();
        if has_key(a, k) {
            if has_key(a.drop_last(), k) {
                lemma_redact_keeps_keys(a.drop_last(), k);
                lemma_value_of_append(redact_attrs(a.drop_last()), redact_entry(a.last()), k);
            } else {
                assert forall|j: int| 0 <= j < a.len() - 1 implies a[j].0 != k by {
                    assert(a.drop_last()[j] == a[j]);
                }
                let i = choose|i: int| 0 <= i < a.len() && a[i].0 == k;
                assert(i == a.len() - 1);
                assert(!has_key(redact_attrs(a.drop_last()), k)) by {
                    lemma_redact_keeps_keys(a.drop_last(), k);
                }
                lemma_value_of_absent_prefix(
                    redact_attrs(a.drop_last()),
                    redact_entry(a.last()),
                    k,
                );
            }
        }
    }
}

/// Redaction neither invents nor (for non-environment keys) loses keys.
pub proof fn lemma_redact_keeps_keys(a: Seq<(Seq<char>, Option<ValueModel>)>, k: Seq<char>)
    requires
        k != env_key(),
    ensures
        has_key(redact_attrs(a), k) == has_key(a, k),
    decreases a.len(),
{
    if a.len() > 0 {
        lemma_redact_keeps_keys(a.drop_last(), k);
        let r = redact_attrs(a.drop_last()) + redact_entry(a.last());
        if has_key(a, k) {
            let i = choose|i: int| 0 <= i < a.len() && a[i].0 == k;
            if i < a.len() - 1 {
                assert(a.drop_last()[i].0 == k);
                let j = choose|j: int|
                    0 <= j < redact_attrs(a.drop_last()).len() && redact_attrs(a.drop_last())[j].0
                        == k;
                assert(r[j].0 == k);
            } else {
                assert(r[r.len() - 1].0 == k);
            }
        } else {
            assert forall|i: int| 0 <= i < r.len() implies r[i].0 != k by {
                if i < redact_attrs(a.drop_last()).len() {
                } else {
                    assert(a.last().0 != k);
                }
            }
        }
    }
}

/// First-match lookup distributes over append when the prefix has the key.
proof fn lemma_value_of_append(
    a: Seq<(Seq<char>, Option<ValueModel>)>,
    b: Seq<(Seq<char>, Option<ValueModel>)>,
    k: Seq<char>,
)
    requires
        has_key(a, k),
    ensures
        value_of(a + b, k) == value_of(a, k),
    decreases a.len(),
{
    if a.len() > 0 {
        if a[0].0 == k {
            assert((a + b)[0] == a[0]);
        } else {
            assert(has_key(a.drop_first(), k)) by {
                let i = choose|i: int| 0 <= i < a.len() && a[i].0 == k;
                assert(a.drop_first()[i - 1].0 == k);
            }
            lemma_value_of_append(a.drop_first(), b, k);
            assert((a + b).drop_first() =~= a.drop_first() + b);
        }
    }
}

/// First-match lookup skips a prefix that lacks the key.
proof fn lemma_value_of_absent_prefix(
    a: Seq<(Seq<char>, Option<ValueModel>)>,
    b: Seq<(Seq<char>, Option<ValueModel>)>,
    k: Seq<char>,
)
    requires
        !has_key(a, k),
    ensures
        value_of(a + b, k) == value_of(b, k),
    decreases a.len(),
{
    if a.len() == 0 {
        assert(a + b =~= b);
    } else {
        assert(a[0].0 != k);
        assert(has_key(a.drop_first(), k) ==> has_key(a, k)) by {
            if has_key(a.drop_first(), k) {
                let i = choose|i: int| 0 <= i < a.drop_first().len() && a.drop_first()[i].0 == k;
                assert(a[i + 1].0 == k);
            }
        }
        lemma_value_of_absent_prefix(a.drop_first(), b, k);
        assert((a + b).drop_first() =~= a.drop_first() + b);
    }
}

/// For every span, the redacted span's attribute map has the
/// environment-variable key absent entirely.
pub proof fn lemma_redact_span_removes_env(s: SpanView)
    ensures
        !has_key(redact_span(s).attrs, env_key()),
{
    lemma_redact_removes_env(s.attrs);
}

/// For every span holding a value under the authorization key or the
/// connection-string key, the redacted span's value for that key is the
/// mask token, never the original.
pub proof fn lemma_redact_span_masks_sensitive(s: SpanView, k: Seq<char>)
    requires
        is_masked_key(k),
    ensures
        has_key(s.attrs, k) ==> value_of(redact_span(s).attrs, k) == Some(
            Some(ValueModel::StringV(mask())),
        ),
{
    lemma_redact_masks_sensitive(s.attrs, k);
}

/// Redaction is idempotent: redacting an already-redacted attribute map
/// changes nothing.
pub proof fn lemma_redact_idempotent(a: Seq<(Seq<char>, Option<ValueModel>)>)
    ensures
        redact_attrs(redact_attrs(a)) == redact_attrs(a),
    decreases a.len(),
{
    if a.len() > 0 {
        lemma_redact_idempotent(a.drop_last());
        lemma_redact_attrs_append(redact_attrs(a.drop_last()), redact_entry(a.last()));
        assert(redact_attrs(redact_entry(a.last())) =~= redact_entry(a.last())) by {
            let e = redact_entry(a.last());
            if e.len() > 0 {
                assert(e.drop_last() =~= Seq::<(Seq<char>, Option<ValueModel>)>::empty());
                assert(redact_attrs(e.drop_last()) == Seq::<
                    (Seq<char>, Option<ValueModel>),
                >::empty());
                assert(redact_attrs(e) == redact_attrs(e.drop_last()) + redact_entry(e.last()));
                assert(redact_entry(e.last()) == redact_entry(e[0]));
                crate::model::lemma_keys_distinct();
            }
        }
    }
}

/// Redaction is idempotent on spans.
pub proof fn lemma_redact_span_idempotent(s: SpanView)
    ensures
        redact_span(redact_span(s)) == redact_span(s),
{
    lemma_redact_idempotent(s.attrs);
}

/// Redaction distributes over sequence concatenation.
pub proof fn lemma_redact_attrs_append(
    a: Seq<(Seq<char>, Option<ValueModel>)>,
    b: Seq<(Seq<char>, Option<ValueModel>)>,
)
    ensures
        redact_attrs(a + b) == redact_attrs(a) + redact_attrs(b),
    decreases b.len(),
{
    if b.len() == 0 {
        assert(a + b =~= a);
        assert(redact_attrs(a) + redact_attrs(b) =~= redact_attrs(a));
    } else {
        lemma_redact_attrs_append(a, b.drop_last());
        assert((a + b).drop_last() =~= a + b.drop_last());
        assert((a + b).last() == b.last());
        assert(redact_attrs(a) + redact_attrs(b) =~= redact_attrs(a) + (redact_attrs(
            b.drop_last(),
        ) + redact_entry(b.last())));
    }
}

/// Redaction does not disturb the lookup of any key outside the sensitive
/// set: the summary fields (method, path, status) read the same values
/// before and after.
pub proof fn lemma_redact_preserves_other_keys(
    a: Seq<(Seq<char>, Option<ValueModel>)>,
    k: Seq<char>,
)
    requires
        k != env_key(),
        !is_masked_key(k),
    ensures
        value_of(redact_attrs(a), k) == value_of(a, k),
    decreases a.len(),
{
    if a.len() > 0 {
        lemma_redact_preserves_other_keys(a.drop_last(), k);
        let pre = a.drop_last();
        lemma_redact_keeps_keys(pre, k);
        if has_key(pre, k) {
            lemma_value_of_append(redact_attrs(pre), redact_entry(a.last()), k);
            lemma_value_of_append(pre, seq![a.last()], k);
            assert(pre + seq![a.last()] =~= a);
        } else {
            lemma_value_of_absent_prefix(redact_attrs(pre), redact_entry(a.last()), k);
            lemma_value_of_absent_prefix(pre, seq![a.last()], k);
            assert(pre + seq![a.last()] =~= a);
            assert(value_of(redact_entry(a.last()), k) == value_of(seq![a.last()], k)) by {
                let e = a.last();
                if e.0 == k {
                } else {
                    assert(value_of(seq![e], k) == value_of(seq![e].drop_first(), k));
                    assert(seq![e].drop_first() =~= Seq::<(Seq<char>, Option<ValueModel>)>::empty());
                    if !is_masked_key(e.0) && e.0 != env_key() {
                        assert(redact_entry(e) == seq![e]);
                    } else if e.0 == env_key() {
                        assert(value_of(redact_entry(e), k) == None::<Option<ValueModel>>);
                    } else {
                        assert(redact_entry(e)[0].0 == e.0);
                        assert(value_of(redact_entry(e), k) == value_of(
                            redact_entry(e).drop_first(),
                            k,
                        ));
                        assert(redact_entry(e).drop_first() =~= Seq::<
                            (Seq<char>, Option<ValueModel>),
                        >::empty());
                    }
                }
            }
        }
    }
}

} // verus!

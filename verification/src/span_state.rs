//! The holder of the two tracing spans of a request: the span of the server
//! side, and that of the call to the upstream. A span is held together with
//! the record of what this library has told it.

use crate::tracing_attributes::{views_of, Attribute};
use opentelemetry::global::BoxedSpan;
use vstd::prelude::*;

verus! {

/// `opentelemetry::global::BoxedSpan`, of which the verifier sees nothing: a
/// span is carried, told its attributes and told to end.
#[verifier::external_type_specification]
#[verifier::external_body]
pub struct ExBoxedSpan(opentelemetry::global::BoxedSpan);

/// One call made on a span.
pub enum SpanCall {
    /// `set_attributes`, with these attributes in this order.
    Attributes(Seq<(Seq<char>, Seq<char>)>),
    /// `set_attribute`, with this attribute.
    Attribute((Seq<char>, Seq<char>)),
    /// `end`.
    End,
}

/// A span, and the record of the calls that this library has made on it
/// since it was taken in. What the tracer makes of a call is its own
/// business: the record says which calls were made, and in which order.
pub struct TracedSpan {
    span: BoxedSpan,
    told: Ghost<Seq<SpanCall>>,
}

impl TracedSpan {
    /// The calls made on the span so far, the first one first.
    pub closed spec fn told(&self) -> Seq<SpanCall> {
        self.told@
    }

    /// The span as the tracer handed it out.
    pub closed spec fn inner(&self) -> BoxedSpan {
        self.span
    }

    /// Takes a span in: nothing has been told to it yet.
    pub fn new(span: BoxedSpan) -> (traced: Self)
        ensures
            traced.told() == Seq::<SpanCall>::empty(),
            traced.inner() == span,
    {
        TracedSpan { span, told: Ghost(Seq::empty()) }
    }

    /// Hands the span back, for what this library does not do with it.
    pub fn into_inner(self) -> (span: BoxedSpan)
        ensures
            span == self.inner(),
    {
        self.span
    }
}

/// `Span::end` on a `BoxedSpan`: the span is told that its operation has
/// ended, and the record has that call as its last. What the span does with
/// the call is the tracer's business, so nothing more is said of the span.
#[verifier::external_body]
pub(crate) fn span_end(span: &mut TracedSpan)
    ensures
        final(span).told() == old(span).told().push(SpanCall::End),
{
    opentelemetry::trace::Span::end(&mut span.span);
}

/// `Span::set_attributes` on a `BoxedSpan`, each attribute made by
/// `KeyValue::new`: one call with all of them, which the record has as its
/// last. What the span keeps of them is the tracer's business.
#[verifier::external_body]
pub(crate) fn span_set_attributes(span: &mut TracedSpan, attributes: Vec<Attribute>)
    ensures
        final(span).told() == old(span).told().push(SpanCall::Attributes(views_of(attributes@))),
{
    opentelemetry::trace::Span::set_attributes(
        &mut span.span,
        attributes.into_iter().map(|a| opentelemetry::KeyValue::new(a.key, a.value)),
    );
}

/// `Span::set_attribute` on a `BoxedSpan`, the attribute made by
/// `KeyValue::new`: the record has that call as its last.
#[verifier::external_body]
pub(crate) fn span_set_attribute(span: &mut TracedSpan, attribute: Attribute)
    ensures
        final(span).told() == old(span).told().push(SpanCall::Attribute(attribute@)),
{
    opentelemetry::trace::Span::set_attribute(
        &mut span.span,
        opentelemetry::KeyValue::new(attribute.key, attribute.value),
    );
}

/// The spans of one request. A slot is empty until its span is started; the
/// client slot is filled when a call to the upstream is made.
pub struct SpanState {
    pub server_span: Option<TracedSpan>,
    pub client_span: Option<TracedSpan>,
}

/// Whether `after` is the slot `before` once its span, if it holds one, has
/// been told to end: one more call on that span, and that call is `end`. An
/// empty slot stays empty.
pub open spec fn slot_ended(before: Option<TracedSpan>, after: Option<TracedSpan>) -> bool {
    match before {
        Some(span) => after matches Some(ended) && ended.told() == span.told().push(SpanCall::End),
        None => after is None,
    }
}

/// The slot for a span that the tracer may or may not have handed out.
pub open spec fn slot_of(span: Option<BoxedSpan>, slot: Option<TracedSpan>) -> bool {
    match span {
        Some(span) => slot matches Some(traced) && traced.inner() == span && traced.told()
            == Seq::<SpanCall>::empty(),
        None => slot is None,
    }
}

/// Ends the span in `slot`, if there is one. The span stays in its slot: a
/// caller that may end twice clears the slot itself.
pub fn end_slot(slot: &mut Option<TracedSpan>)
    ensures
        slot_ended(*old(slot), *final(slot)),
{
    match slot {
        Some(span) => {
            span_end(span);
        },
        None => {},
    }
}

impl SpanState {
    /// The spans of a request that has its server span, if tracing is on,
    /// and no client span yet.
    pub fn new(server_span: Option<BoxedSpan>) -> (state: Self)
        ensures
            slot_of(server_span, state.server_span),
            state.client_span is None,
    {
        let server_span = match server_span {
            Some(span) => Some(TracedSpan::new(span)),
            None => None,
        };
        SpanState { server_span, client_span: None }
    }

    /// Ends the server span and the client span, each if it is there: each
    /// is told to end once, the server span first. Empty slots stay empty,
    /// and the spans stay in their slots.
    pub fn end(&mut self)
        ensures
            slot_ended(old(self).server_span, final(self).server_span),
            slot_ended(old(self).client_span, final(self).client_span),
    {
        end_slot(&mut self.server_span);
        end_slot(&mut self.client_span);
    }
}

} // verus!

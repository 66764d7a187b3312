use vstd::prelude::*;
use crate::attr::{KeyValue, upsert_attr};
use crate::context::{SpanContext, invalid_span_context};
use crate::status::{Status, status_transition};
use crate::time::Timestamp;

verus! {

/// A timestamped event recorded on a span.
#[derive(Debug, Clone)]
pub struct Event {
    /// What happened.
    pub name: String,
    /// When it happened.
    pub timestamp: Timestamp,
    /// Attributes describing the event.
    pub attributes: Vec<KeyValue>,
}

/// A link from one span to another span's identity.
#[derive(Debug, Clone)]
pub struct Link {
    /// The linked span's identity.
    pub span_context: SpanContext,
    /// Attributes describing the link.
    pub attributes: Vec<KeyValue>,
}

/// What a caller asks of a tracer when it builds a span: the span's name,
/// its starting attributes, and optionally explicit identifiers.
#[derive(Debug, Clone)]
pub struct SpanBuilder {
    /// The span's name.
    pub name: String,
    /// The span's starting attributes.
    pub attributes: Vec<KeyValue>,
    /// An explicit trace identifier, overriding the parent's.
    pub trace_id: Option<u128>,
    /// An explicit span identifier.
    pub span_id: Option<u64>,
}

impl SpanBuilder {
    /// A builder for a span with the given name and nothing else.
    pub fn from_name(name: String) -> (r: SpanBuilder)
        ensures
            r.name == name,
            r.attributes@ == Seq::<KeyValue>::empty(),
            r.trace_id is None,
            r.span_id is None,
    {
        SpanBuilder { name, attributes: Vec::new(), trace_id: None, span_id: None }
    }
}

/// The abstract state of one span: everything an implementation of
/// [`ObjectSafeSpan`] lets its callers observe.
pub ghost struct SpanModel {
    /// The identity fixed when the span was created.
    pub ctx: SpanContext,
    /// The span's name.
    pub name: Seq<char>,
    /// The attributes set so far, in insertion order.
    pub attributes: Seq<KeyValue>,
    /// The events recorded so far, in call order.
    pub events: Seq<Event>,
    /// The links added so far, in call order.
    pub links: Seq<Link>,
    /// The status under the monotonic rule.
    pub status: Status,
    /// Whether the span has been ended.
    pub ended: bool,
    /// When the span was first ended, if it was.
    pub end_time: Option<Timestamp>,
    /// Whether the span still records information.
    pub recording: bool,
}

/// The state of the no-op span: not recording, never ended, invalid
/// identity, nothing stored.
pub open spec fn noop_span_model() -> SpanModel {
    SpanModel {
        ctx: invalid_span_context(),
        name: Seq::<char>::empty(),
        attributes: Seq::<KeyValue>::empty(),
        events: Seq::<Event>::empty(),
        links: Seq::<Link>::empty(),
        status: Status::Unset,
        ended: false,
        end_time: None,
        recording: false,
    }
}

/// Recording an event: appended in call order while the span records,
/// ignored otherwise.
pub open spec fn span_with_event(m: SpanModel, e: Event) -> SpanModel {
    if m.recording {
        SpanModel { events: m.events.push(e), ..m }
    } else {
        m
    }
}

/// Setting an attribute: the [`upsert_attr`] rule while the span records,
/// ignored otherwise.
pub open spec fn span_with_attribute(m: SpanModel, kv: KeyValue) -> SpanModel {
    if m.recording {
        SpanModel { attributes: upsert_attr(m.attributes, kv), ..m }
    } else {
        m
    }
}

/// Setting the status: the monotonic [`status_transition`] rule while the
/// span records, ignored otherwise.
pub open spec fn span_with_status(m: SpanModel, status: Status) -> SpanModel {
    if m.recording {
        SpanModel { status: status_transition(m.status, status), ..m }
    } else {
        m
    }
}

/// Renaming: the name is replaced while the span records, ignored
/// otherwise.
pub open spec fn span_with_name(m: SpanModel, name: Seq<char>) -> SpanModel {
    if m.recording {
        SpanModel { name, ..m }
    } else {
        m
    }
}

/// Adding a link: appended in call order while the span records, ignored
/// otherwise.
pub open spec fn span_with_link(m: SpanModel, l: Link) -> SpanModel {
    if m.recording {
        SpanModel { links: m.links.push(l), ..m }
    } else {
        m
    }
}

/// Ending at a time: the first end stops the recording and fixes the end
/// time; a span that no longer records is left exactly as it is.
pub open spec fn span_ended_at(m: SpanModel, t: Timestamp) -> SpanModel {
    if m.recording {
        SpanModel { ended: true, end_time: Some(t), recording: false, ..m }
    } else {
        m
    }
}

/// The operations any span must support.  Every implementation carries an
/// abstract state, [`SpanModel`], and each operation changes that state by
/// exactly the rule named in its contract — in particular, a span that does
/// not record (the no-op span, or any span after its first end) is left
/// untouched by every operation.
pub trait ObjectSafeSpan: Sized {
    /// The abstract state this span is in.
    spec fn view_model(&self) -> SpanModel;

    /// Records an event at the given time.  Events preserve the order in
    /// which they are added.
    fn add_event_with_timestamp(&mut self, name: String, timestamp: Timestamp, attributes: Vec<KeyValue>)
        ensures
            final(self).view_model() == span_with_event(
                old(self).view_model(),
                (Event { name, timestamp, attributes }),
            ),
    ;

    /// The span's identity: the same value for the span's whole lifetime,
    /// and usable after the span has ended.
    fn span_context(&self) -> (r: &SpanContext)
        ensures
            *r == self.view_model().ctx,
    ;

    /// Whether the span still records information; callers use this to
    /// skip computing attributes for a span that discards them.
    fn is_recording(&self) -> (r: bool)
        ensures
            r == self.view_model().recording,
    ;

    /// Sets one attribute, overwriting the value under an equal key and
    /// otherwise preserving insertion order.
    fn set_attribute(&mut self, attribute: KeyValue)
        ensures
            final(self).view_model() == span_with_attribute(old(self).view_model(), attribute),
    ;

    /// Reports a status, under the monotonic rule: the message is kept
    /// only when an `Error` lands on an `Unset` status.
    fn set_status(&mut self, status: Status)
        ensures
            final(self).view_model() == span_with_status(old(self).view_model(), status),
    ;

    /// Renames the span.  Renaming after creation is discouraged but
    /// supported.
    fn update_name(&mut self, new_name: String)
        ensures
            final(self).view_model() == span_with_name(old(self).view_model(), new_name@),
    ;

    /// Links this span to another span's identity.
    fn add_link(&mut self, span_context: SpanContext, attributes: Vec<KeyValue>)
        ensures
            final(self).view_model() == span_with_link(
                old(self).view_model(),
                (Link { span_context, attributes }),
            ),
    ;

    /// Ends the span at the current time.  Non-blocking, and idempotent:
    /// calls after the first change nothing.
    fn end(&mut self)
        ensures
            exists|t: Timestamp| final(self).view_model() == span_ended_at(old(self).view_model(), t),
    {
        self.end_with_timestamp(Timestamp::now());
    }

    /// Ends the span at the given time.  Non-blocking, and idempotent:
    /// calls after the first change nothing, and ending a span has no
    /// effect on any other span.
    fn end_with_timestamp(&mut self, timestamp: Timestamp)
        ensures
            final(self).view_model() == span_ended_at(old(self).view_model(), timestamp),
    ;
}

/// Ending a span twice has exactly one observable effect: the second end —
/// at whatever time — leaves the state of the first end unchanged.
pub proof fn lemma_end_idempotent(m: SpanModel, t1: Timestamp, t2: Timestamp)
    ensures
        span_ended_at(span_ended_at(m, t1), t2) == span_ended_at(m, t1),
{
}

/// A span's identity never changes: every operation leaves the
/// `SpanContext` fixed at creation in place.
pub proof fn lemma_context_stable(m: SpanModel, e: Event, kv: KeyValue, status: Status, name: Seq<char>, l: Link, t: Timestamp)
    ensures
        span_with_event(m, e).ctx == m.ctx,
        span_with_attribute(m, kv).ctx == m.ctx,
        span_with_status(m, status).ctx == m.ctx,
        span_with_name(m, name).ctx == m.ctx,
        span_with_link(m, l).ctx == m.ctx,
        span_ended_at(m, t).ctx == m.ctx,
{
}

/// The no-op span is inert: it does not record, its identity is invalid,
/// and every operation — events, attributes, status, renames, links, ends —
/// leaves it exactly as it is.
pub proof fn lemma_noop_span_inert(e: Event, kv: KeyValue, status: Status, name: Seq<char>, l: Link, t: Timestamp)
    ensures
        !noop_span_model().recording,
        !noop_span_model().ctx.spec_is_valid(),
        span_with_event(noop_span_model(), e) == noop_span_model(),
        span_with_attribute(noop_span_model(), kv) == noop_span_model(),
        span_with_status(noop_span_model(), status) == noop_span_model(),
        span_with_name(noop_span_model(), name) == noop_span_model(),
        span_with_link(noop_span_model(), l) == noop_span_model(),
        span_ended_at(noop_span_model(), t) == noop_span_model(),
{
}

} // verus!

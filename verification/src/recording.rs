use vstd::prelude::*;
use crate::attr::{KeyValue, set_attr};
use crate::context::{Context, SpanContext};
use crate::scope::{InstrumentationScope, ScopeModel};
use crate::span::{Event, Link, ObjectSafeSpan, SpanBuilder, SpanModel};
use crate::status::Status;
use crate::time::Timestamp;
use crate::tracer::{ObjectSafeTracer, ObjectSafeTracerProvider};

verus! {

/// A span that keeps in memory exactly what was recorded on it, under the
/// rules of [`ObjectSafeSpan`]: events and links in call order, attributes
/// under the overwrite-on-equal-key rule, the status under the monotonic
/// rule, and at most one end.
///
/// It is the reference implementation of the capability, and the test
/// double through which delegation across the erasure chain is observed.
#[derive(Debug)]
pub struct RecordingSpan {
    context: SpanContext,
    name: String,
    attributes: Vec<KeyValue>,
    events: Vec<Event>,
    links: Vec<Link>,
    status: Status,
    ended: bool,
    end_time: Option<Timestamp>,
    recording: bool,
}

impl RecordingSpan {
    /// A fresh recording span: the given identity, name and attributes,
    /// nothing recorded yet, recording.
    pub fn start(context: SpanContext, name: String, attributes: Vec<KeyValue>) -> (r: RecordingSpan)
        ensures
            r.view_model() == (SpanModel {
                ctx: context,
                name: name@,
                attributes: attributes@,
                events: Seq::<Event>::empty(),
                links: Seq::<Link>::empty(),
                status: Status::Unset,
                ended: false,
                end_time: None::<Timestamp>,
                recording: true,
            }),
    {
        RecordingSpan {
            context,
            name,
            attributes,
            events: Vec::new(),
            links: Vec::new(),
            status: Status::Unset,
            ended: false,
            end_time: None,
            recording: true,
        }
    }

    /// The span's current name.
    pub fn name(&self) -> (r: &String)
        ensures
            r@ == self.view_model().name,
    {
        &self.name
    }

    /// The attributes set so far, in insertion order.
    pub fn attributes(&self) -> (r: &Vec<KeyValue>)
        ensures
            r@ == self.view_model().attributes,
    {
        &self.attributes
    }

    /// The events recorded so far, in call order.
    pub fn events(&self) -> (r: &Vec<Event>)
        ensures
            r@ == self.view_model().events,
    {
        &self.events
    }

    /// The links added so far, in call order.
    pub fn links(&self) -> (r: &Vec<Link>)
        ensures
            r@ == self.view_model().links,
    {
        &self.links
    }

    /// The status reported so far, under the monotonic rule.
    pub fn status(&self) -> (r: &Status)
        ensures
            *r == self.view_model().status,
    {
        &self.status
    }

    /// Whether the span has been ended.
    pub fn is_ended(&self) -> (r: bool)
        ensures
            r == self.view_model().ended,
    {
        self.ended
    }

    /// When the span was first ended, if it was.
    pub fn end_time(&self) -> (r: Option<Timestamp>)
        ensures
            r == self.view_model().end_time,
    {
        self.end_time
    }
}

impl ObjectSafeSpan for RecordingSpan {
    closed spec fn view_model(&self) -> SpanModel {
        SpanModel {
            ctx: self.context,
            name: self.name@,
            attributes: self.attributes@,
            events: self.events@,
            links: self.links@,
            status: self.status,
            ended: self.ended,
            end_time: self.end_time,
            recording: self.recording,
        }
    }

    fn add_event_with_timestamp(&mut self, name: String, timestamp: Timestamp, attributes: Vec<KeyValue>) {
        if self.recording {
            self.events.push(Event { name, timestamp, attributes });
        }
    }

    fn span_context(&self) -> (r: &SpanContext) {
        &self.context
    }

    fn is_recording(&self) -> (r: bool) {
        self.recording
    }

    fn set_attribute(&mut self, attribute: KeyValue) {
        if self.recording {
            set_attr(&mut self.attributes, attribute);
        }
    }

    fn set_status(&mut self, status: Status) {
        if self.recording {
            let keep: bool = match (&self.status, &status) {
                (_, Status::Unset) => true,
                (Status::Unset, Status::Error(_)) => false,
                (_, Status::Error(_)) => true,
                (_, Status::Okay) => false,
            };
            if !keep {
                self.status = status;
            }
        }
    }

    fn update_name(&mut self, new_name: String) {
        if self.recording {
            self.name = new_name;
        }
    }

    fn add_link(&mut self, span_context: SpanContext, attributes: Vec<KeyValue>) {
        if self.recording {
            self.links.push(Link { span_context, attributes });
        }
    }

    fn end_with_timestamp(&mut self, timestamp: Timestamp) {
        if self.recording {
            self.ended = true;
            self.end_time = Some(timestamp);
            self.recording = false;
        }
    }
}

/// The span identity a [`RecordingTracer`] gives a new span: explicit
/// identifiers from the builder win; without them the trace is inherited
/// from the parent and missing identifiers are zero.
pub open spec fn spec_built_context(builder: SpanBuilder, parent_cx: Context) -> SpanContext {
    SpanContext {
        trace_id: match builder.trace_id {
            Some(t) => t,
            None => match parent_cx.parent {
                Some(p) => p.trace_id,
                None => 0,
            },
        },
        span_id: match builder.span_id {
            Some(s) => s,
            None => 0,
        },
    }
}

/// The state of the span a [`RecordingTracer`] builds: identity under the
/// [`spec_built_context`] rule, the builder's name and attributes, nothing
/// recorded yet, recording.
pub open spec fn spec_recorded_span(builder: SpanBuilder, parent_cx: Context) -> SpanModel {
    SpanModel {
        ctx: spec_built_context(builder, parent_cx),
        name: builder.name@,
        attributes: builder.attributes@,
        events: Seq::<Event>::empty(),
        links: Seq::<Link>::empty(),
        status: Status::Unset,
        ended: false,
        end_time: None,
        recording: true,
    }
}

/// A tracer producing [`RecordingSpan`]s, scoped to one scope.
#[derive(Debug)]
pub struct RecordingTracer {
    scope: InstrumentationScope,
}

impl RecordingTracer {
    /// A recording tracer for the given scope.
    pub fn new(scope: InstrumentationScope) -> (r: RecordingTracer)
        ensures
            r.spec_scope() == scope@,
            !r.spec_noop(),
    {
        RecordingTracer { scope }
    }

    /// The scope this tracer was made for.
    pub fn scope(&self) -> (r: &InstrumentationScope)
        ensures
            r@ == self.spec_scope(),
    {
        &self.scope
    }
}

impl ObjectSafeTracer for RecordingTracer {
    type Span = RecordingSpan;

    closed spec fn spec_scope(&self) -> ScopeModel {
        self.scope@
    }

    open spec fn spec_noop(&self) -> bool {
        false
    }

    open spec fn spec_built(&self, builder: SpanBuilder, parent_cx: Context) -> SpanModel {
        spec_recorded_span(builder, parent_cx)
    }

    fn scope(&self) -> (r: &InstrumentationScope) {
        &self.scope
    }

    fn build_with_context_boxed(&self, builder: SpanBuilder, parent_cx: &Context) -> (s: RecordingSpan) {
        let trace_id: u128 = match builder.trace_id {
            Some(t) => t,
            None => match parent_cx.parent {
                Some(p) => p.trace_id,
                None => 0,
            },
        };
        let span_id: u64 = match builder.span_id {
            Some(s) => s,
            None => 0,
        };
        RecordingSpan::start(SpanContext::new(trace_id, span_id), builder.name, builder.attributes)
    }
}

/// A provider producing [`RecordingTracer`]s.  The identifier tells
/// providers apart when several are installed in turn.
#[derive(Debug)]
pub struct RecordingTracerProvider {
    /// Tells this provider apart from others in a test or a scenario.
    pub id: u64,
}

impl RecordingTracerProvider {
    /// A recording provider carrying the given identifier.
    pub fn new(id: u64) -> (r: RecordingTracerProvider)
        ensures
            r == (RecordingTracerProvider { id }),
    {
        RecordingTracerProvider { id }
    }
}

impl ObjectSafeTracerProvider for RecordingTracerProvider {
    type Tracer = RecordingTracer;

    open spec fn spec_noop(&self) -> bool {
        false
    }

    open spec fn spec_built(&self, scope: ScopeModel, builder: SpanBuilder, parent_cx: Context) -> SpanModel {
        spec_recorded_span(builder, parent_cx)
    }

    fn boxed_tracer(&self, scope: InstrumentationScope) -> (t: RecordingTracer) {
        RecordingTracer::new(scope)
    }
}

} // verus!

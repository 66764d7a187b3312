use vstd::prelude::*;
use crate::attr::KeyValue;
use crate::context::{Context, SpanContext};
use crate::noop::{NoopSpan, NoopTracer};
use crate::scope::{InstrumentationScope, ScopeModel};
use crate::span::{ObjectSafeSpan, SpanBuilder, SpanModel, noop_span_model};
use crate::status::Status;
use crate::time::Timestamp;
use crate::tracer::ObjectSafeTracer;

verus! {

#[derive(Debug)]
enum SpanRepr<S: ObjectSafeSpan> {
    Noop(NoopSpan),
    Backend(S),
}

/// A uniform handle over any span implementation: it erases the concrete
/// span type of the layer below and forwards every operation, adding no
/// behavior of its own — its abstract state is exactly the wrapped span's.
#[derive(Debug)]
pub struct BoxedSpan<S: ObjectSafeSpan> {
    inner: SpanRepr<S>,
}

impl<S: ObjectSafeSpan> BoxedSpan<S> {
    /// Wraps a concrete span.
    pub fn new(span: S) -> (r: BoxedSpan<S>)
        ensures
            r.view_model() == span.view_model(),
    {
        BoxedSpan { inner: SpanRepr::Backend(span) }
    }

    /// The handle over the no-op span.
    pub fn new_noop() -> (r: BoxedSpan<S>)
        ensures
            r.view_model() == noop_span_model(),
    {
        BoxedSpan { inner: SpanRepr::Noop(NoopSpan::new()) }
    }
}

impl<S: ObjectSafeSpan> ObjectSafeSpan for BoxedSpan<S> {
    closed spec fn view_model(&self) -> SpanModel {
        match self.inner {
            SpanRepr::Noop(n) => n.view_model(),
            SpanRepr::Backend(s) => s.view_model(),
        }
    }

    fn add_event_with_timestamp(&mut self, name: String, timestamp: Timestamp, attributes: Vec<KeyValue>) {
        match &mut self.inner {
            SpanRepr::Noop(n) => n.add_event_with_timestamp(name, timestamp, attributes),
            SpanRepr::Backend(s) => s.add_event_with_timestamp(name, timestamp, attributes),
        }
    }

    fn span_context(&self) -> (r: &SpanContext) {
        match &self.inner {
            SpanRepr::Noop(n) => n.span_context(),
            SpanRepr::Backend(s) => s.span_context(),
        }
    }

    fn is_recording(&self) -> (r: bool) {
        match &self.inner {
            SpanRepr::Noop(n) => n.is_recording(),
            SpanRepr::Backend(s) => s.is_recording(),
        }
    }

    fn set_attribute(&mut self, attribute: KeyValue) {
        match &mut self.inner {
            SpanRepr::Noop(n) => n.set_attribute(attribute),
            SpanRepr::Backend(s) => s.set_attribute(attribute),
        }
    }

    fn set_status(&mut self, status: Status) {
        match &mut self.inner {
            SpanRepr::Noop(n) => n.set_status(status),
            SpanRepr::Backend(s) => s.set_status(status),
        }
    }

    fn update_name(&mut self, new_name: String) {
        match &mut self.inner {
            SpanRepr::Noop(n) => n.update_name(new_name),
            SpanRepr::Backend(s) => s.update_name(new_name),
        }
    }

    fn add_link(&mut self, span_context: SpanContext, attributes: Vec<KeyValue>) {
        match &mut self.inner {
            SpanRepr::Noop(n) => n.add_link(span_context, attributes),
            SpanRepr::Backend(s) => s.add_link(span_context, attributes),
        }
    }

    fn end_with_timestamp(&mut self, timestamp: Timestamp) {
        match &mut self.inner {
            SpanRepr::Noop(n) => n.end_with_timestamp(timestamp),
            SpanRepr::Backend(s) => s.end_with_timestamp(timestamp),
        }
    }
}

#[derive(Debug)]
enum TracerRepr<T: ObjectSafeTracer> {
    Noop(NoopTracer),
    Backend(T),
}

/// A uniform handle over any tracer implementation: it erases the concrete
/// tracer type and wraps the spans that tracer builds in [`BoxedSpan`],
/// erasing their type in turn — one level of the chain at a time.
#[derive(Debug)]
pub struct BoxedTracer<T: ObjectSafeTracer> {
    inner: TracerRepr<T>,
}

impl<T: ObjectSafeTracer> BoxedTracer<T> {
    /// Wraps a concrete tracer: the handle keeps its scope, its no-op-ness
    /// and, span for span, its building behavior.
    pub fn new(tracer: T) -> (r: BoxedTracer<T>)
        ensures
            r.spec_scope() == tracer.spec_scope(),
            r.spec_noop() == tracer.spec_noop(),
            forall|builder: SpanBuilder, parent_cx: Context|
                #[trigger] r.spec_built(builder, parent_cx) == tracer.spec_built(
                    builder,
                    parent_cx,
                ),
    {
        BoxedTracer { inner: TracerRepr::Backend(tracer) }
    }

    /// The handle over a no-op tracer for the given scope.
    pub fn new_noop(scope: InstrumentationScope) -> (r: BoxedTracer<T>)
        ensures
            r.spec_scope() == scope@,
            r.spec_noop(),
            forall|builder: SpanBuilder, parent_cx: Context|
                #[trigger] r.spec_built(builder, parent_cx) == noop_span_model(),
    {
        BoxedTracer { inner: TracerRepr::Noop(NoopTracer::new(scope)) }
    }

    /// Builds a span from a builder and an explicitly chosen parent
    /// context, as [`ObjectSafeTracer::build_with_context_boxed`] does,
    /// returning it behind the uniform span handle.
    pub fn build_with_context(&self, builder: SpanBuilder, parent_cx: &Context) -> (s: BoxedSpan<T::Span>)
        ensures
            s.view_model() == self.spec_built(builder, *parent_cx),
            s.view_model().ended == false,
            s.view_model().status is Unset,
            s.view_model().recording ==> s.view_model().name == builder.name@,
            self.spec_noop() ==> s.view_model() == noop_span_model(),
    {
        self.build_with_context_boxed(builder, parent_cx)
    }
}

impl<T: ObjectSafeTracer> ObjectSafeTracer for BoxedTracer<T> {
    type Span = BoxedSpan<T::Span>;

    closed spec fn spec_scope(&self) -> ScopeModel {
        match self.inner {
            TracerRepr::Noop(n) => n.spec_scope(),
            TracerRepr::Backend(t) => t.spec_scope(),
        }
    }

    closed spec fn spec_noop(&self) -> bool {
        match self.inner {
            TracerRepr::Noop(n) => true,
            TracerRepr::Backend(t) => t.spec_noop(),
        }
    }

    closed spec fn spec_built(&self, builder: SpanBuilder, parent_cx: Context) -> SpanModel {
        match self.inner {
            TracerRepr::Noop(n) => noop_span_model(),
            TracerRepr::Backend(t) => t.spec_built(builder, parent_cx),
        }
    }

    fn scope(&self) -> (r: &InstrumentationScope) {
        match &self.inner {
            TracerRepr::Noop(n) => n.scope(),
            TracerRepr::Backend(t) => t.scope(),
        }
    }

    fn build_with_context_boxed(&self, builder: SpanBuilder, parent_cx: &Context) -> (s: BoxedSpan<T::Span>) {
        match &self.inner {
            TracerRepr::Noop(n) => BoxedSpan::new_noop(),
            TracerRepr::Backend(t) => BoxedSpan::new(t.build_with_context_boxed(builder, parent_cx)),
        }
    }
}

} // verus!

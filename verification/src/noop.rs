use vstd::prelude::*;
use crate::attr::KeyValue;
use crate::context::{Context, SpanContext};
use crate::scope::{InstrumentationScope, ScopeModel};
use crate::span::{ObjectSafeSpan, SpanBuilder, SpanModel, noop_span_model};
use crate::status::Status;
use crate::time::Timestamp;
use crate::tracer::{ObjectSafeTracer, ObjectSafeTracerProvider};

verus! {

/// A span whose operations have no observable effect: nothing is stored,
/// it never records, and its identity is the invalid context.
///
/// Used before any provider is installed, and whenever the registry's
/// storage is unreadable.
#[derive(Debug)]
pub struct NoopSpan {
    context: SpanContext,
}

impl NoopSpan {
    /// The no-op span; its state is exactly [`noop_span_model`].
    pub fn new() -> (r: NoopSpan)
        ensures
            r.view_model() == noop_span_model(),
    {
        NoopSpan { context: SpanContext::invalid() }
    }
}

impl ObjectSafeSpan for NoopSpan {
    closed spec fn view_model(&self) -> SpanModel {
        SpanModel { ctx: self.context, ..noop_span_model() }
    }

    fn add_event_with_timestamp(&mut self, name: String, timestamp: Timestamp, attributes: Vec<KeyValue>) {
    }

    fn span_context(&self) -> (r: &SpanContext) {
        &self.context
    }

    fn is_recording(&self) -> (r: bool) {
        false
    }

    fn set_attribute(&mut self, attribute: KeyValue) {
    }

    fn set_status(&mut self, status: Status) {
    }

    fn update_name(&mut self, new_name: String) {
    }

    fn add_link(&mut self, span_context: SpanContext, attributes: Vec<KeyValue>) {
    }

    fn end_with_timestamp(&mut self, timestamp: Timestamp) {
    }
}

/// A tracer that only hands out [`NoopSpan`]s.  It still remembers the
/// scope it was asked for, so the erasure chain above it keeps its
/// contract, but no span it builds records anything.
#[derive(Debug)]
pub struct NoopTracer {
    scope: InstrumentationScope,
}

impl NoopTracer {
    /// A no-op tracer for the given scope.
    pub fn new(scope: InstrumentationScope) -> (r: NoopTracer)
        ensures
            r.spec_scope() == scope@,
            r.spec_noop(),
    {
        NoopTracer { scope }
    }
}

impl ObjectSafeTracer for NoopTracer {
    type Span = NoopSpan;

    closed spec fn spec_scope(&self) -> ScopeModel {
        self.scope@
    }

    open spec fn spec_noop(&self) -> bool {
        true
    }

    open spec fn spec_built(&self, builder: SpanBuilder, parent_cx: Context) -> SpanModel {
        noop_span_model()
    }

    fn scope(&self) -> (r: &InstrumentationScope) {
        &self.scope
    }

    fn build_with_context_boxed(&self, builder: SpanBuilder, parent_cx: &Context) -> (s: NoopSpan) {
        NoopSpan::new()
    }
}

/// A provider that only hands out [`NoopTracer`]s: the guaranteed-usable
/// fallback installed in the registry before anything else, and the
/// emergency substitute when the registry cannot be read.
#[derive(Debug)]
pub struct NoopTracerProvider {
}

impl NoopTracerProvider {
    /// The no-op provider.
    pub fn new() -> (r: NoopTracerProvider)
        ensures
            r.spec_noop(),
    {
        NoopTracerProvider {  }
    }
}

impl ObjectSafeTracerProvider for NoopTracerProvider {
    type Tracer = NoopTracer;

    open spec fn spec_noop(&self) -> bool {
        true
    }

    open spec fn spec_built(&self, scope: ScopeModel, builder: SpanBuilder, parent_cx: Context) -> SpanModel {
        noop_span_model()
    }

    fn boxed_tracer(&self, scope: InstrumentationScope) -> (t: NoopTracer) {
        NoopTracer::new(scope)
    }
}

} // verus!

use vstd::prelude::*;
use crate::context::Context;
use crate::scope::{InstrumentationScope, ScopeModel};
use crate::span::{Event, Link, ObjectSafeSpan, SpanBuilder, SpanModel, noop_span_model};

verus! {

/// The single operation a tracer must support: building a span from a
/// builder and an explicitly chosen parent context.
///
/// A tracer is a stateless factory scoped to one instrumentation scope, so
/// the span it builds is a function of the tracer, the builder and the
/// parent alone — [`ObjectSafeTracer::spec_built`] names that function, and
/// `build_with_context_boxed` returns exactly it.  Two tracers with equal
/// scopes and equal `spec_built` are functionally equivalent.
pub trait ObjectSafeTracer: Sized {
    /// The concrete span type this tracer produces.
    type Span: ObjectSafeSpan;

    /// The scope this tracer was made for.
    spec fn spec_scope(&self) -> ScopeModel;

    /// Whether this tracer is a no-op tracer, whose spans discard
    /// everything.
    spec fn spec_noop(&self) -> bool;

    /// The state of the span this tracer builds from the given builder
    /// and parent context.
    spec fn spec_built(&self, builder: SpanBuilder, parent_cx: Context) -> SpanModel;

    /// The scope this tracer was made for, as a value.
    fn scope(&self) -> (r: &InstrumentationScope)
        ensures
            r@ == self.spec_scope(),
    ;

    /// Builds a span under the given builder and parent context: exactly
    /// the span [`ObjectSafeTracer::spec_built`] names.  A fresh span has
    /// ended nothing and recorded nothing; if it records at all, it starts
    /// from the builder's name and attributes; and a no-op tracer hands
    /// out exactly the no-op span.
    fn build_with_context_boxed(&self, builder: SpanBuilder, parent_cx: &Context) -> (s: Self::Span)
        ensures
            s.view_model() == self.spec_built(builder, *parent_cx),
            s.view_model().ended == false,
            s.view_model().end_time is None,
            s.view_model().status is Unset,
            s.view_model().events == Seq::<Event>::empty(),
            s.view_model().links == Seq::<Link>::empty(),
            s.view_model().recording ==> s.view_model().name == builder.name@,
            s.view_model().recording ==> s.view_model().attributes == builder.attributes@,
            self.spec_noop() ==> s.view_model() == noop_span_model(),
    ;
}

/// The single operation a provider must support: producing a tracer for an
/// instrumentation scope.
///
/// The produced tracer carries exactly the requested scope and builds
/// exactly the spans [`ObjectSafeTracerProvider::spec_built`] names for
/// that scope, so repeated calls with equal scopes yield functionally
/// equivalent tracers; and a no-op provider only ever produces no-op
/// tracers.
pub trait ObjectSafeTracerProvider: Sized {
    /// The concrete tracer type this provider produces.
    type Tracer: ObjectSafeTracer;

    /// Whether this provider behaves as the no-op provider, producing
    /// only no-op tracers.
    spec fn spec_noop(&self) -> bool;

    /// The state of the span that a tracer from this provider for the
    /// given scope builds from the given builder and parent context.
    /// Tracers are stateless factories, so this is a function of the
    /// provider, the scope, the builder and the parent alone.
    spec fn spec_built(&self, scope: ScopeModel, builder: SpanBuilder, parent_cx: Context) -> SpanModel;

    /// Produces a tracer for the given scope: it carries that scope, it is
    /// a no-op tracer exactly when the provider is a no-op provider, and
    /// it builds exactly the spans the provider's
    /// [`ObjectSafeTracerProvider::spec_built`] names for that scope.
    fn boxed_tracer(&self, scope: InstrumentationScope) -> (t: Self::Tracer)
        ensures
            t.spec_scope() == scope@,
            t.spec_noop() == self.spec_noop(),
            forall|builder: SpanBuilder, parent_cx: Context|
                #[trigger] t.spec_built(builder, parent_cx) == self.spec_built(
                    scope@,
                    builder,
                    parent_cx,
                ),
    ;
}

} // verus!

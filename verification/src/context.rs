use vstd::prelude::*;

verus! {

/// The identity correlating a span to its trace.
///
/// It is fixed when the span is created, copyable, and stays meaningful
/// after the span has ended.  A context whose identifiers are both zero is
/// invalid; the no-op implementation hands out exactly that one.
#[derive(Debug, Clone, Copy, PartialEq, Eq, Structural)]
pub struct SpanContext {
    /// Identifies the trace this span belongs to.
    pub trace_id: u128,
    /// Identifies this span within its trace.
    pub span_id: u64,
}

/// The invalid identity: both identifiers zero.
pub open spec fn invalid_span_context() -> SpanContext {
    SpanContext { trace_id: 0, span_id: 0 }
}

impl SpanContext {
    /// A context with the given identifiers.
    pub fn new(trace_id: u128, span_id: u64) -> (r: SpanContext)
        ensures
            r == (SpanContext { trace_id, span_id }),
    {
        SpanContext { trace_id, span_id }
    }

    /// The invalid context, used where no real identity exists.
    pub fn invalid() -> (r: SpanContext)
        ensures
            r == invalid_span_context(),
    {
        SpanContext { trace_id: 0, span_id: 0 }
    }

    /// Whether this context carries a real identity.
    pub fn is_valid(&self) -> (r: bool)
        ensures
            r == self.spec_is_valid(),
    {
        self.trace_id != 0 && self.span_id != 0
    }

    /// A context is valid when both identifiers are non-zero.
    pub open spec fn spec_is_valid(&self) -> bool {
        self.trace_id != 0 && self.span_id != 0
    }
}

/// The execution context a caller chooses as the parent of a new span.
///
/// Callers pass the parent explicitly, so building a span is referentially
/// transparent: there is no ambient "current" context in this layer.
#[derive(Debug, Clone, Copy, PartialEq, Eq, Structural)]
pub struct Context {
    /// The span identity the new span descends from, if any.
    pub parent: Option<SpanContext>,
}

impl Context {
    /// A context with no parent span.
    pub fn new() -> (r: Context)
        ensures
            r == (Context { parent: None::<SpanContext> }),
    {
        Context { parent: None }
    }

    /// A context whose parent is the given span identity.
    pub fn with_parent(parent: SpanContext) -> (r: Context)
        ensures
            r == (Context { parent: Some(parent) }),
    {
        Context { parent: Some(parent) }
    }
}

} // verus!

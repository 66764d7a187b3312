use vstd::prelude::*;
use std::sync::Arc;
use crate::attr::KeyValue;
use crate::boxed::BoxedTracer;
use crate::context::Context;
use crate::scope::{InstrumentationScope, ScopeModel};
use crate::span::{SpanBuilder, SpanModel, noop_span_model};
use crate::tracer::{ObjectSafeTracer, ObjectSafeTracerProvider};

verus! {

/// Relies on `Clone` for `std::sync::Arc`: the clone is another pointer
/// to the same allocation, hence the same value.
#[verifier::external_body]
fn arc_clone<T>(v: &Arc<T>) -> (res: Arc<T>)
    ensures
        res == *v,
{
    Arc::clone(v)
}

/// Whether a handle over the given installed provider (or over nothing)
/// behaves as the no-op provider: it does exactly when nothing is
/// installed, or the installed provider itself is a no-op one.
pub open spec fn spec_handle_noop<P: ObjectSafeTracerProvider>(installed: Option<P>) -> bool {
    match installed {
        Some(p) => p.spec_noop(),
        None => true,
    }
}

/// The span built through a handle over the given installed provider (or
/// over nothing) for the given scope, builder and parent: the installed
/// provider's own span, or the no-op span when nothing is installed.
pub open spec fn spec_handle_built<P: ObjectSafeTracerProvider>(
    installed: Option<P>,
    scope: ScopeModel,
    builder: SpanBuilder,
    parent_cx: Context,
) -> SpanModel {
    match installed {
        Some(p) => p.spec_built(scope, builder, parent_cx),
        None => noop_span_model(),
    }
}

/// The cheap, reference-counted handle to a provider that the registry
/// hands out: either an installed concrete provider, shared by all clones
/// of the handle, or the no-op fallback.  It erases the provider's
/// concrete tracer type by handing out [`BoxedTracer`]s.
#[derive(Debug)]
pub struct GlobalTracerProvider<P: ObjectSafeTracerProvider> {
    installed: Option<Arc<P>>,
}

impl<P: ObjectSafeTracerProvider> GlobalTracerProvider<P> {
    /// The provider behind this handle, or nothing for the no-op
    /// fallback.
    pub closed spec fn spec_installed(&self) -> Option<P> {
        match self.installed {
            Some(p) => Some(*p),
            None => None,
        }
    }

    /// A handle wrapping the given concrete provider.
    pub fn new(provider: P) -> (r: GlobalTracerProvider<P>)
        ensures
            r.spec_installed() == Some(provider),
    {
        GlobalTracerProvider { installed: Some(Arc::new(provider)) }
    }

    /// The handle over the no-op fallback; what every accessor returns
    /// when nothing is installed or the registry cannot be read.
    pub fn new_noop() -> (r: GlobalTracerProvider<P>)
        ensures
            r.spec_installed() is None,
    {
        GlobalTracerProvider { installed: None }
    }

    /// Whether this handle is the no-op fallback.
    pub fn is_noop(&self) -> (r: bool)
        ensures
            r == (self.spec_installed() is None),
    {
        match &self.installed {
            None => true,
            Some(_) => false,
        }
    }

    /// The provider behind this handle, when one is installed.
    pub fn installed(&self) -> (r: Option<&P>)
        ensures
            match r {
                Some(p) => self.spec_installed() == Some(*p),
                None => self.spec_installed() is None,
            },
    {
        match &self.installed {
            None => None,
            Some(a) => Some(&**a),
        }
    }

    /// A tracer for the given scope from whatever this handle wraps,
    /// behind the uniform tracer handle.
    pub fn tracer_with_scope(&self, scope: InstrumentationScope) -> (t: BoxedTracer<P::Tracer>)
        ensures
            t.spec_scope() == scope@,
            t.spec_noop() == spec_handle_noop(self.spec_installed()),
            forall|builder: SpanBuilder, parent_cx: Context|
                #[trigger] t.spec_built(builder, parent_cx) == spec_handle_built(
                    self.spec_installed(),
                    scope@,
                    builder,
                    parent_cx,
                ),
    {
        match &self.installed {
            None => BoxedTracer::new_noop(scope),
            Some(a) => BoxedTracer::new((&**a).boxed_tracer(scope)),
        }
    }

    /// A tracer built from a name alone, under the default-name rule of
    /// [`spec_effective_name`]: the rest of the scope is empty.
    pub fn tracer(&self, name: &str) -> (t: BoxedTracer<P::Tracer>)
        ensures
            t.spec_scope().name == spec_effective_name(name@),
            t.spec_scope().version is None,
            t.spec_scope().schema_url is None,
            t.spec_scope().attributes == Seq::<KeyValue>::empty(),
            t.spec_noop() == spec_handle_noop(self.spec_installed()),
            forall|builder: SpanBuilder, parent_cx: Context|
                #[trigger] t.spec_built(builder, parent_cx) == spec_handle_built(
                    self.spec_installed(),
                    t.spec_scope(),
                    builder,
                    parent_cx,
                ),
    {
        self.tracer_with_scope(InstrumentationScope::builder(effective_name(name)).build())
    }
}

impl<P: ObjectSafeTracerProvider> Clone for GlobalTracerProvider<P> {
    /// Cloning a handle is cheap and shares the wrapped provider: the
    /// clone observes exactly the same backend.
    fn clone(&self) -> (r: Self)
        ensures
            r.spec_installed() == self.spec_installed(),
    {
        GlobalTracerProvider {
            installed: match &self.installed {
                None => None,
                Some(a) => Some(arc_clone(a)),
            },
        }
    }
}

impl<P: ObjectSafeTracerProvider> ObjectSafeTracerProvider for GlobalTracerProvider<P> {
    type Tracer = BoxedTracer<P::Tracer>;

    open spec fn spec_noop(&self) -> bool {
        spec_handle_noop(self.spec_installed())
    }

    open spec fn spec_built(&self, scope: ScopeModel, builder: SpanBuilder, parent_cx: Context) -> SpanModel {
        spec_handle_built(self.spec_installed(), scope, builder, parent_cx)
    }

    fn boxed_tracer(&self, scope: InstrumentationScope) -> (t: BoxedTracer<P::Tracer>) {
        self.tracer_with_scope(scope)
    }
}

/// The name a tracer is scoped to when the caller gives one: an empty
/// name is replaced by the defined default name, never rejected.
pub open spec fn spec_effective_name(name: Seq<char>) -> Seq<char> {
    if name.len() == 0 {
        spec_default_tracer_name()
    } else {
        name
    }
}

/// The defined default tracer name used in place of an empty one.
pub open spec fn spec_default_tracer_name() -> Seq<char> {
    "default"@
}

/// The given name, or the default tracer name in place of an empty one.
pub fn effective_name(name: &str) -> (r: String)
    ensures
        r@ == spec_effective_name(name@),
{
    if name.is_empty() {
        "default".to_owned()
    } else {
        name.to_owned()
    }
}

/// The state of the registry slot: untouched, lazily defaulted to the
/// no-op provider, or holding the most recently installed provider.
/// There is no way back to `Uninitialized`.
pub enum RegistryView<P> {
    /// No access has happened yet.
    Uninitialized,
    /// Some access happened before any installation; the slot holds the
    /// no-op default.
    DefaultNoop,
    /// The given provider was installed most recently.
    Installed(P),
}

/// The process-wide slot holding the single active provider.
///
/// The slot starts empty, is lazily filled with the no-op default on
/// first initialization, and is replaced wholesale — never mutated in
/// place — on every installation.  Readers always get a usable handle;
/// the surrounding storage's failure path is covered by
/// [`GlobalTracerProvider::new_noop`].
#[derive(Debug)]
pub struct TracerRegistry<P: ObjectSafeTracerProvider> {
    slot: Option<GlobalTracerProvider<P>>,
}

impl<P: ObjectSafeTracerProvider> View for TracerRegistry<P> {
    type V = RegistryView<P>;

    closed spec fn view(&self) -> RegistryView<P> {
        match self.slot {
            None => RegistryView::Uninitialized,
            Some(h) => match h.spec_installed() {
                None => RegistryView::DefaultNoop,
                Some(p) => RegistryView::Installed(p),
            },
        }
    }
}

impl<P: ObjectSafeTracerProvider> TracerRegistry<P> {
    /// A fresh registry: nothing has been installed or accessed.
    pub fn new() -> (r: TracerRegistry<P>)
        ensures
            r@ == RegistryView::<P>::Uninitialized,
    {
        TracerRegistry { slot: None }
    }
}

/// Lazy initialization: the registry's first access constructs the no-op
/// default; later accesses change nothing.
pub open spec fn reg_init<P>(s: RegistryView<P>) -> RegistryView<P> {
    match s {
        RegistryView::Uninitialized => RegistryView::DefaultNoop,
        _ => s,
    }
}

/// The provider a reader observes in a registry state: the most recently
/// installed one, or nothing — which every accessor renders as the no-op
/// fallback.
pub open spec fn observed<P>(s: RegistryView<P>) -> Option<P> {
    match s {
        RegistryView::Installed(p) => Some(p),
        _ => None,
    }
}

/// Makes sure the registry is initialized: on the very first access the
/// slot is filled with the no-op default, exactly once; afterwards this
/// changes nothing.
pub fn global_tracer_provider<P: ObjectSafeTracerProvider>(registry: &mut TracerRegistry<P>)
    ensures
        final(registry)@ == reg_init(old(registry)@),
{
    if registry.slot.is_none() {
        registry.slot = Some(GlobalTracerProvider::new_noop());
    }
}

/// The currently configured provider, behind a cheap handle.  This never
/// fails the caller: before any installation the handle wraps the no-op
/// fallback.
pub fn tracer_provider<P: ObjectSafeTracerProvider>(registry: &TracerRegistry<P>) -> (h: GlobalTracerProvider<P>)
    ensures
        h.spec_installed() == observed(registry@),
{
    match &registry.slot {
        None => GlobalTracerProvider::new_noop(),
        Some(h) => h.clone(),
    }
}

/// Installs a provider: the slot is replaced wholesale, and every read
/// that starts after this completes observes exactly this provider.
pub fn set_tracer_provider<P: ObjectSafeTracerProvider>(registry: &mut TracerRegistry<P>, new_provider: P)
    ensures
        final(registry)@ == RegistryView::Installed(new_provider),
{
    global_tracer_provider(registry);
    registry.slot = Some(GlobalTracerProvider::new(new_provider));
}

/// A tracer for the given scope from the currently configured provider;
/// a no-op tracer while nothing is installed.
pub fn tracer_with_scope<P: ObjectSafeTracerProvider>(registry: &TracerRegistry<P>, scope: InstrumentationScope) -> (t: BoxedTracer<P::Tracer>)
    ensures
        t.spec_scope() == scope@,
        t.spec_noop() == spec_handle_noop(observed(registry@)),
        forall|builder: SpanBuilder, parent_cx: Context|
            #[trigger] t.spec_built(builder, parent_cx) == spec_handle_built(
                observed(registry@),
                scope@,
                builder,
                parent_cx,
            ),
{
    tracer_provider(registry).tracer_with_scope(scope)
}

/// A tracer by name from the currently configured provider.  An empty
/// name is replaced by the defined default name, never rejected; the
/// call never fails.
pub fn tracer<P: ObjectSafeTracerProvider>(registry: &TracerRegistry<P>, name: &str) -> (t: BoxedTracer<P::Tracer>)
    ensures
        t.spec_scope().name == spec_effective_name(name@),
        t.spec_scope().version is None,
        t.spec_scope().schema_url is None,
        t.spec_scope().attributes == Seq::<KeyValue>::empty(),
        t.spec_noop() == spec_handle_noop(observed(registry@)),
        forall|builder: SpanBuilder, parent_cx: Context|
            #[trigger] t.spec_built(builder, parent_cx) == spec_handle_built(
                observed(registry@),
                t.spec_scope(),
                builder,
                parent_cx,
            ),
{
    tracer_provider(registry).tracer(name)
}

/// One operation on the registry slot: an access (a get, or the lazy
/// initialization it may trigger), or the installation of a provider.
pub enum RegistryOp<P> {
    /// Any read path; at most it triggers the lazy default.
    Access,
    /// `set_tracer_provider` with the given provider.
    Install(P),
}

/// How one operation moves the registry state.
pub open spec fn reg_step<P>(s: RegistryView<P>, op: RegistryOp<P>) -> RegistryView<P> {
    match op {
        RegistryOp::Access => reg_init(s),
        RegistryOp::Install(p) => RegistryView::Installed(p),
    }
}

/// The state after a whole sequence of operations, applied in order.
pub open spec fn reg_run<P>(s: RegistryView<P>, ops: Seq<RegistryOp<P>>) -> RegistryView<P>
    decreases ops.len(),
{
    if ops.len() == 0 {
        s
    } else {
        reg_run(reg_step(s, ops[0]), ops.drop_first())
    }
}

/// Once the slot has left `Uninitialized`, no operation takes it back:
/// there is no transition from the default or an installed provider to
/// the untouched state.
pub proof fn lemma_no_way_back<P>(s: RegistryView<P>, op: RegistryOp<P>)
    requires
        !(s is Uninitialized),
    ensures
        !(reg_step(s, op) is Uninitialized),
{
}

/// Accesses never displace an installed provider: a run without installs
/// leaves it observed throughout.
pub proof fn lemma_no_install_preserves<P>(p: P, ops: Seq<RegistryOp<P>>)
    requires
        forall|i: int| 0 <= i < ops.len() ==> !(ops[i] is Install),
    ensures
        reg_run(RegistryView::Installed(p), ops) == RegistryView::<P>::Installed(p),
    decreases ops.len(),
{
    if ops.len() > 0 {
        assert(reg_step(RegistryView::Installed(p), ops[0]) == RegistryView::<P>::Installed(p));
        assert(forall|i: int| 0 <= i < ops.drop_first().len() ==> !(ops.drop_first()[i] is Install));
        lemma_no_install_preserves(p, ops.drop_first());
    }
}

/// Last writer wins: once an install completes, every later read — with
/// any number of accesses in between, but no further install — observes
/// exactly that provider.
pub proof fn lemma_last_install_wins<P>(s: RegistryView<P>, p: P, ops: Seq<RegistryOp<P>>)
    requires
        forall|i: int| 0 <= i < ops.len() ==> !(ops[i] is Install),
    ensures
        observed(reg_run(reg_step(s, RegistryOp::Install(p)), ops)) == Some(p),
{
    lemma_no_install_preserves(p, ops);
}

/// Every observed provider is traceable to some completed install: after
/// any sequence of operations, a reader sees either the no-op default or
/// a provider that some install in the sequence (or the starting state)
/// put there — never a torn or partial value.
pub proof fn lemma_observed_traceable<P>(s: RegistryView<P>, ops: Seq<RegistryOp<P>>)
    ensures
        forall|p: P| observed(reg_run(s, ops)) == Some(p)
            ==> ops.contains(RegistryOp::Install(p)) || observed(s) == Some(p),
    decreases ops.len(),
{
    if ops.len() > 0 {
        let s1 = reg_step(s, ops[0]);
        lemma_observed_traceable(s1, ops.drop_first());
        assert forall|p: P| observed(reg_run(s, ops)) == Some(p)
            implies ops.contains(RegistryOp::Install(p)) || observed(s) == Some(p) by {
            if observed(reg_run(s, ops)) == Some(p) {
                if ops.drop_first().contains(RegistryOp::Install(p)) {
                    let i = choose|i: int|
                        0 <= i < ops.drop_first().len()
                            && ops.drop_first()[i] == RegistryOp::<P>::Install(p);
                    assert(ops[i + 1] == RegistryOp::<P>::Install(p));
                    assert(ops.contains(RegistryOp::Install(p)));
                } else {
                    assert(observed(s1) == Some(p));
                    match ops[0] {
                        RegistryOp::Access => {
                            assert(observed(s) == Some(p));
                        },
                        RegistryOp::Install(q) => {
                            assert(q == p);
                            assert(ops.contains(RegistryOp::Install(p)));
                        },
                    }
                }
            }
        }
    }
}

} // verus!

use otel_global::attr::{KeyValue, Value};
use otel_global::context::{Context, SpanContext};
use otel_global::recording::RecordingTracerProvider;
use otel_global::registry::{
    effective_name, global_tracer_provider, set_tracer_provider, tracer, tracer_provider,
    tracer_with_scope, GlobalTracerProvider, TracerRegistry,
};
use otel_global::scope::InstrumentationScope;
use otel_global::span::{ObjectSafeSpan, SpanBuilder};
use otel_global::status::Status;
use otel_global::time::Timestamp;
use otel_global::tracer::{ObjectSafeTracer, ObjectSafeTracerProvider};

type Registry = TracerRegistry<RecordingTracerProvider>;

#[test]
fn get_before_any_install_is_the_noop_fallback() {
    let registry: Registry = TracerRegistry::new();
    let handle = tracer_provider(&registry);
    assert!(handle.is_noop());
    assert!(handle.installed().is_none());
}

#[test]
fn lazy_initialization_keeps_the_noop_default() {
    let mut registry: Registry = TracerRegistry::new();
    global_tracer_provider(&mut registry);
    let handle = tracer_provider(&registry);
    assert!(handle.is_noop());
    global_tracer_provider(&mut registry);
    assert!(tracer_provider(&registry).is_noop());
}

#[test]
fn install_then_get_observes_that_provider() {
    let mut registry: Registry = TracerRegistry::new();
    set_tracer_provider(&mut registry, RecordingTracerProvider::new(7));
    let handle = tracer_provider(&registry);
    assert!(!handle.is_noop());
    assert_eq!(handle.installed().unwrap().id, 7);
}

#[test]
fn last_completed_install_wins() {
    let mut registry: Registry = TracerRegistry::new();
    set_tracer_provider(&mut registry, RecordingTracerProvider::new(1));
    let _ = tracer_provider(&registry);
    set_tracer_provider(&mut registry, RecordingTracerProvider::new(2));
    set_tracer_provider(&mut registry, RecordingTracerProvider::new(3));
    assert_eq!(tracer_provider(&registry).installed().unwrap().id, 3);
}

#[test]
fn interleaved_installs_and_gets_observe_some_completed_install() {
    let mut registry: Registry = TracerRegistry::new();
    let mut last_installed: Option<u64> = None;
    for step in 0u64..20 {
        if step % 3 == 0 {
            set_tracer_provider(&mut registry, RecordingTracerProvider::new(step));
            last_installed = Some(step);
        } else {
            let seen = tracer_provider(&registry).installed().map(|p| p.id);
            assert_eq!(seen, last_installed);
        }
    }
}

#[test]
fn installed_provider_is_shared_by_handle_clones() {
    let mut registry: Registry = TracerRegistry::new();
    set_tracer_provider(&mut registry, RecordingTracerProvider::new(11));
    let handle = tracer_provider(&registry);
    let clone = handle.clone();
    assert_eq!(handle.installed().unwrap().id, 11);
    assert_eq!(clone.installed().unwrap().id, 11);
}

#[test]
fn round_trip_delegates_to_the_installed_provider() {
    let mut registry: Registry = TracerRegistry::new();
    set_tracer_provider(&mut registry, RecordingTracerProvider::new(5));
    let handle = tracer_provider(&registry);

    let scope = InstrumentationScope::builder(String::from("component")).build();
    let boxed_tracer = handle.tracer_with_scope(scope);
    assert_eq!(boxed_tracer.scope().name(), "component");

    let mut builder = SpanBuilder::from_name(String::from("job"));
    builder.trace_id = Some(42);
    builder.span_id = Some(9);
    let parent = Context::with_parent(SpanContext::new(42, 1));
    let mut span = boxed_tracer.build_with_context(builder, &parent);

    // a no-op span would not record: recording proves the installed
    // provider's own tracer built this span
    assert!(span.is_recording());
    assert_eq!(*span.span_context(), SpanContext::new(42, 9));
    span.set_attribute(KeyValue::new(String::from("k"), Value::Bool(true)));
    span.set_status(Status::Okay);
    span.end_with_timestamp(Timestamp::from_nanos(3));
    assert!(!span.is_recording());

    // the provider observed through the handle is the installed one itself
    let provider = handle.installed().unwrap();
    let direct_tracer = provider.boxed_tracer(InstrumentationScope::builder(String::from("direct")).build());
    let direct_span = direct_tracer.build_with_context_boxed(SpanBuilder::from_name(String::from("s")), &Context::new());
    assert!(direct_span.is_recording());
    assert_eq!(direct_span.name(), "s");
}

#[test]
fn tracer_by_name_uses_the_name_and_empty_rest() {
    let mut registry: Registry = TracerRegistry::new();
    set_tracer_provider(&mut registry, RecordingTracerProvider::new(1));
    let t = tracer(&registry, "my_component");
    assert_eq!(t.scope().name(), "my_component");
    assert!(t.scope().version().is_none());
    assert!(t.scope().schema_url().is_none());
    assert!(t.scope().attributes().is_empty());
}

#[test]
fn empty_tracer_name_falls_back_to_the_default_name() {
    let registry: Registry = TracerRegistry::new();
    let t = tracer(&registry, "");
    assert_eq!(t.scope().name(), "default");
    assert_eq!(effective_name(""), "default");
    assert_eq!(effective_name("given"), "given");
}

#[test]
fn tracer_with_scope_carries_the_whole_scope() {
    let mut registry: Registry = TracerRegistry::new();
    set_tracer_provider(&mut registry, RecordingTracerProvider::new(1));
    let scope = InstrumentationScope::builder(String::from("io.library"))
        .with_version(String::from("0.17"))
        .with_schema_url(String::from("https://example.com/schema/1.2.0"))
        .with_attributes(vec![KeyValue::new(String::from("key"), Value::Text(String::from("value")))])
        .build();
    let t = tracer_with_scope(&registry, scope);
    assert_eq!(t.scope().name(), "io.library");
    assert_eq!(t.scope().version().map(|v| v.as_str()), Some("0.17"));
    assert_eq!(t.scope().schema_url().map(|s| s.as_str()), Some("https://example.com/schema/1.2.0"));
    assert_eq!(t.scope().attributes().len(), 1);
}

#[test]
fn fallback_handle_for_unreadable_storage_is_noop() {
    let handle: GlobalTracerProvider<RecordingTracerProvider> = GlobalTracerProvider::new_noop();
    assert!(handle.is_noop());
    let t = handle.tracer("anything");
    let span = t.build_with_context(SpanBuilder::from_name(String::from("s")), &Context::new());
    assert!(!span.is_recording());
}

#[test]
fn built_span_inherits_the_parent_trace_without_explicit_ids() {
    let mut registry: Registry = TracerRegistry::new();
    set_tracer_provider(&mut registry, RecordingTracerProvider::new(1));
    let t = tracer(&registry, "lib");
    let parent = Context::with_parent(SpanContext::new(77, 3));
    let span = t.build_with_context(SpanBuilder::from_name(String::from("child")), &parent);
    assert_eq!(span.span_context().trace_id, 77);
    assert_eq!(span.span_context().span_id, 0);

    let orphan = t.build_with_context(SpanBuilder::from_name(String::from("root")), &Context::new());
    assert!(!orphan.span_context().is_valid());
}

#[test]
fn equal_scopes_yield_functionally_equivalent_tracers() {
    let mut registry: Registry = TracerRegistry::new();
    set_tracer_provider(&mut registry, RecordingTracerProvider::new(2));
    let t1 = tracer_with_scope(&registry, InstrumentationScope::builder(String::from("lib")).build());
    let t2 = tracer_with_scope(&registry, InstrumentationScope::builder(String::from("lib")).build());

    let parent = Context::with_parent(SpanContext::new(8, 1));
    let s1 = t1.build_with_context(SpanBuilder::from_name(String::from("w")), &parent);
    let s2 = t2.build_with_context(SpanBuilder::from_name(String::from("w")), &parent);
    assert_eq!(*s1.span_context(), *s2.span_context());
    assert_eq!(s1.is_recording(), s2.is_recording());
    assert_eq!(t1.scope().name(), t2.scope().name());
}

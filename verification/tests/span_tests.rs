use otel_global::attr::{KeyValue, Value};
use otel_global::context::SpanContext;
use otel_global::recording::RecordingSpan;
use otel_global::span::ObjectSafeSpan;
use otel_global::status::Status;
use otel_global::time::Timestamp;

fn fresh_span() -> RecordingSpan {
    RecordingSpan::start(SpanContext::new(1, 2), String::from("work"), Vec::new())
}

fn kv(key: &str, value: i64) -> KeyValue {
    KeyValue::new(String::from(key), Value::I64(value))
}

#[test]
fn attributes_preserve_insertion_order_and_overwrite_values() {
    let mut span = fresh_span();
    span.set_attribute(kv("alpha", 1));
    span.set_attribute(kv("beta", 2));
    span.set_attribute(kv("alpha", 3));
    let attrs = span.attributes();
    assert_eq!(attrs.len(), 2);
    assert_eq!(attrs[0].key, "alpha");
    assert!(matches!(attrs[0].value, Value::I64(3)));
    assert_eq!(attrs[1].key, "beta");
    assert!(matches!(attrs[1].value, Value::I64(2)));
}

#[test]
fn events_preserve_call_order() {
    let mut span = fresh_span();
    span.add_event_with_timestamp(String::from("first"), Timestamp::from_nanos(10), Vec::new());
    span.add_event_with_timestamp(String::from("second"), Timestamp::from_nanos(5), Vec::new());
    let events = span.events();
    assert_eq!(events.len(), 2);
    assert_eq!(events[0].name, "first");
    assert_eq!(events[0].timestamp, Timestamp::from_nanos(10));
    assert_eq!(events[1].name, "second");
}

#[test]
fn links_are_recorded() {
    let mut span = fresh_span();
    span.add_link(SpanContext::new(9, 9), vec![kv("rel", 1)]);
    let links = span.links();
    assert_eq!(links.len(), 1);
    assert_eq!(links[0].span_context, SpanContext::new(9, 9));
    assert_eq!(links[0].attributes.len(), 1);
}

#[test]
fn ending_twice_has_one_observable_effect() {
    let mut span = fresh_span();
    assert!(span.is_recording());
    span.end_with_timestamp(Timestamp::from_nanos(100));
    assert!(span.is_ended());
    assert!(!span.is_recording());
    assert_eq!(span.end_time(), Some(Timestamp::from_nanos(100)));
    span.end_with_timestamp(Timestamp::from_nanos(200));
    assert_eq!(span.end_time(), Some(Timestamp::from_nanos(100)));
    span.end();
    assert_eq!(span.end_time(), Some(Timestamp::from_nanos(100)));
}

#[test]
fn operations_after_end_are_ignored() {
    let mut span = fresh_span();
    span.set_attribute(kv("kept", 1));
    span.end_with_timestamp(Timestamp::from_nanos(1));
    span.set_attribute(kv("dropped", 2));
    span.add_event_with_timestamp(String::from("dropped"), Timestamp::from_nanos(2), Vec::new());
    span.update_name(String::from("renamed"));
    span.set_status(Status::Okay);
    assert_eq!(span.attributes().len(), 1);
    assert_eq!(span.events().len(), 0);
    assert_eq!(span.name(), "work");
    assert!(matches!(span.status(), Status::Unset));
}

#[test]
fn status_on_span_is_monotonic() {
    let mut span = fresh_span();
    span.set_status(Status::Okay);
    span.set_status(Status::Error(String::from("too late")));
    assert!(matches!(span.status(), Status::Okay));

    let mut span = fresh_span();
    span.set_status(Status::Error(String::from("first")));
    span.set_status(Status::Error(String::from("second")));
    match span.status() {
        Status::Error(m) => assert_eq!(m, "first"),
        _ => panic!("first error should be kept"),
    }
    span.set_status(Status::Okay);
    assert!(matches!(span.status(), Status::Okay));
}

#[test]
fn span_context_is_stable_for_the_span_lifetime() {
    let mut span = fresh_span();
    let ctx = *span.span_context();
    span.set_attribute(kv("a", 1));
    span.update_name(String::from("renamed"));
    span.end();
    assert_eq!(*span.span_context(), ctx);
    assert_eq!(ctx, SpanContext::new(1, 2));
}

#[test]
fn rename_while_recording_takes_effect() {
    let mut span = fresh_span();
    span.update_name(String::from("renamed"));
    assert_eq!(span.name(), "renamed");
}

#[test]
fn ending_without_a_timestamp_uses_the_clock() {
    let mut span = fresh_span();
    span.end();
    assert!(span.is_ended());
    assert!(span.end_time().is_some());
}

use otel_global::attr::{KeyValue, Value};
use otel_global::scope::InstrumentationScope;

#[test]
fn builder_with_name_only_leaves_the_rest_empty() {
    let scope = InstrumentationScope::builder(String::from("lib")).build();
    assert_eq!(scope.name(), "lib");
    assert!(scope.version().is_none());
    assert!(scope.schema_url().is_none());
    assert!(scope.attributes().is_empty());
}

#[test]
fn builder_keeps_every_stated_part() {
    let scope = InstrumentationScope::builder(String::from("io.library"))
        .with_version(String::from("1.4"))
        .with_schema_url(String::from("https://example.com/schema"))
        .with_attributes(vec![KeyValue::new(String::from("k"), Value::I64(3))])
        .build();
    assert_eq!(scope.name(), "io.library");
    assert_eq!(scope.version().map(|v| v.as_str()), Some("1.4"));
    assert_eq!(scope.schema_url().map(|s| s.as_str()), Some("https://example.com/schema"));
    assert_eq!(scope.attributes().len(), 1);
    assert_eq!(scope.attributes()[0].key, "k");
}

#[test]
fn scopes_are_equal_by_content() {
    let a = InstrumentationScope::builder(String::from("lib"))
        .with_version(String::from("1.0"))
        .build();
    let b = InstrumentationScope::builder(String::from("lib"))
        .with_version(String::from("1.0"))
        .build();
    assert_eq!(a.name(), b.name());
    assert_eq!(a.version(), b.version());
    assert_eq!(a.schema_url(), b.schema_url());
    assert_eq!(a.attributes().len(), b.attributes().len());
}

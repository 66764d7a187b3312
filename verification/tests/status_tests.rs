use otel_global::status::{apply_status, Status};

#[test]
fn ok_then_error_leaves_ok() {
    let s = apply_status(Status::Unset, Status::Okay);
    let s = apply_status(s, Status::Error(String::from("late failure")));
    assert!(matches!(s, Status::Okay));
}

#[test]
fn error_then_ok_leaves_ok() {
    let s = apply_status(Status::Unset, Status::Error(String::from("boom")));
    let s = apply_status(s, Status::Okay);
    assert!(matches!(s, Status::Okay));
}

#[test]
fn error_then_error_keeps_first_message() {
    let s = apply_status(Status::Unset, Status::Error(String::from("first")));
    let s = apply_status(s, Status::Error(String::from("second")));
    match s {
        Status::Error(m) => assert_eq!(m, "first"),
        _ => panic!("status should still be the first error"),
    }
}

#[test]
fn setting_unset_is_always_ignored() {
    let s = apply_status(Status::Unset, Status::Unset);
    assert!(matches!(s, Status::Unset));
    let s = apply_status(Status::Error(String::from("kept")), Status::Unset);
    match s {
        Status::Error(m) => assert_eq!(m, "kept"),
        _ => panic!("error should survive an Unset update"),
    }
    let s = apply_status(Status::Okay, Status::Unset);
    assert!(matches!(s, Status::Okay));
}

#[test]
fn status_queries() {
    assert!(Status::Unset.is_unset());
    assert!(!Status::Unset.is_ok());
    assert!(Status::Okay.is_ok());
    let e = Status::Error(String::from("why"));
    assert_eq!(e.error_message().map(|m| m.as_str()), Some("why"));
    assert_eq!(Status::Okay.error_message(), None);
}

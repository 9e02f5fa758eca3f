use erract::ErrorStatus;

#[test]
fn test_permanent_is_not_retryable() {
    let status = ErrorStatus::Permanent;
    assert!(!status.is_retryable());
    assert!(status.is_permanent());
    assert!(!status.is_persistent());
}

#[test]
fn test_temporary_is_retryable() {
    let status = ErrorStatus::Temporary;
    assert!(status.is_retryable());
    assert!(!status.is_permanent());
    assert!(!status.is_persistent());
}

#[test]
fn test_persistent_is_not_retryable() {
    let status = ErrorStatus::Persistent;
    assert!(!status.is_retryable());
    assert!(!status.is_permanent());
    assert!(status.is_persistent());
}

#[test]
fn status_test_display() {
    assert_eq!(ErrorStatus::Permanent.to_string(), "permanent");
    assert_eq!(ErrorStatus::Temporary.to_string(), "temporary");
    assert_eq!(ErrorStatus::Persistent.to_string(), "persistent");
}

#[test]
fn status_machine_strings() {
    assert_eq!(ErrorStatus::Permanent.to_machine_string(), "permanent");
    assert_eq!(ErrorStatus::Temporary.to_machine_string(), "temporary");
    assert_eq!(ErrorStatus::Persistent.to_machine_string(), "persistent");
}

#[test]
fn status_converts_to_retryability() {
    assert!(bool::from(ErrorStatus::Temporary));
    assert!(!bool::from(ErrorStatus::Permanent));
    assert!(!bool::from(ErrorStatus::Persistent));
}

use erract::db::DatabaseErrorKind;
use erract::http::HttpErrorKind;
use erract::storage::StorageErrorKind;
use erract::ErrorKind;

#[test]
fn test_not_found_is_not_retryable() {
    assert!(!ErrorKind::NotFound.is_retryable());
}

#[test]
fn test_permission_denied_is_not_retryable() {
    assert!(!ErrorKind::PermissionDenied.is_retryable());
}

#[test]
fn test_timeout_is_retryable() {
    assert!(ErrorKind::Timeout.is_retryable());
}

#[test]
fn test_validation_is_not_retryable() {
    assert!(!ErrorKind::Validation.is_retryable());
}

#[test]
fn test_unexpected_is_not_retryable() {
    assert!(!ErrorKind::Unexpected.is_retryable());
}

#[test]
fn kind_test_display() {
    assert_eq!(ErrorKind::NotFound.to_string(), "not found");
    assert_eq!(ErrorKind::PermissionDenied.to_string(), "permission denied");
    assert_eq!(ErrorKind::Timeout.to_string(), "timeout");
    assert_eq!(ErrorKind::Validation.to_string(), "validation error");
    assert_eq!(ErrorKind::Unexpected.to_string(), "unexpected error");
}

#[test]
fn kind_machine_strings() {
    assert_eq!(ErrorKind::NotFound.to_machine_string(), "not_found");
    assert_eq!(ErrorKind::PermissionDenied.to_machine_string(), "permission_denied");
    assert_eq!(ErrorKind::Timeout.to_machine_string(), "timeout");
    assert_eq!(ErrorKind::Validation.to_machine_string(), "validation_error");
    assert_eq!(ErrorKind::Unexpected.to_machine_string(), "unexpected_error");
}

#[test]
fn domain_kinds_delegate() {
    let http = ErrorKind::Http(HttpErrorKind::ServerError(503));
    assert!(http.is_retryable());
    assert_eq!(http.to_machine_string(), "http_server_error_503");
    assert_eq!(http.to_string(), "http error: server error: 503");

    let db = ErrorKind::Database(DatabaseErrorKind::QuerySyntax);
    assert!(!db.is_retryable());
    assert_eq!(db.to_machine_string(), "database_query_syntax");
    assert_eq!(db.to_string(), "database error: query syntax error");

    let storage = ErrorKind::Storage(StorageErrorKind::IoError);
    assert!(storage.is_retryable());
    assert_eq!(storage.to_machine_string(), "storage_io_error");
    assert_eq!(storage.to_string(), "storage error: I/O error");
}

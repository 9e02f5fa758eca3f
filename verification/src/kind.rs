//! Error categorization by action, not by origin.

use vstd::prelude::*;
use vstd::string::StringExecFns;
use crate::db::DatabaseErrorKind;
use crate::http::HttpErrorKind;
use crate::storage::StorageErrorKind;

verus! {

/// What the caller can do about an error.
///
/// The set of kinds may grow: match with a wildcard arm.
#[derive(Debug, Clone, Copy, PartialEq, Eq, Hash, Structural)]
#[non_exhaustive]
pub enum ErrorKind {
    /// Resource was not found.
    NotFound,
    /// Permission was denied.
    PermissionDenied,
    /// Operation timed out.
    Timeout,
    /// Input validation failed.
    Validation,
    /// An unexpected or unknown error occurred.
    Unexpected,
    /// HTTP-related error.
    Http(HttpErrorKind),
    /// Database-related error.
    Database(DatabaseErrorKind),
    /// Storage-related error.
    Storage(StorageErrorKind),
}

impl ErrorKind {
    /// The advisory retry hint of the kind: of the base kinds only a
    /// timeout, and for a domain kind what its own table says.
    pub open spec fn retryable(self) -> bool {
        match self {
            ErrorKind::Timeout => true,
            ErrorKind::Http(k) => k.retryable(),
            ErrorKind::Database(k) => k.retryable(),
            ErrorKind::Storage(k) => k.retryable(),
            _ => false,
        }
    }

    /// The machine-readable name: snake case, a domain kind behind the
    /// name of its domain.
    pub open spec fn machine_name(self) -> Seq<char> {
        match self {
            ErrorKind::NotFound => "not_found"@,
            ErrorKind::PermissionDenied => "permission_denied"@,
            ErrorKind::Timeout => "timeout"@,
            ErrorKind::Validation => "validation_error"@,
            ErrorKind::Unexpected => "unexpected_error"@,
            ErrorKind::Http(k) => "http_"@ + k.machine_name(),
            ErrorKind::Database(k) => "database_"@ + k.machine_name(),
            ErrorKind::Storage(k) => "storage_"@ + k.machine_name(),
        }
    }

    /// The human-readable name.
    pub open spec fn display_name(self) -> Seq<char> {
        match self {
            ErrorKind::NotFound => "not found"@,
            ErrorKind::PermissionDenied => "permission denied"@,
            ErrorKind::Timeout => "timeout"@,
            ErrorKind::Validation => "validation error"@,
            ErrorKind::Unexpected => "unexpected error"@,
            ErrorKind::Http(k) => "http error: "@ + k.display_name(),
            ErrorKind::Database(k) => "database error: "@ + k.display_name(),
            ErrorKind::Storage(k) => "storage error: "@ + k.display_name(),
        }
    }

    /// Whether this kind hints at a retryable condition. The hint is
    /// advisory: whether an error is retried is decided by its status.
    pub fn is_retryable(&self) -> (res: bool)
        ensures
            res == self.retryable(),
    {
        match self {
            ErrorKind::NotFound => false,
            ErrorKind::PermissionDenied => false,
            ErrorKind::Timeout => true,
            ErrorKind::Validation => false,
            ErrorKind::Unexpected => false,
            ErrorKind::Http(k) => k.is_retryable(),
            ErrorKind::Database(k) => k.is_retryable(),
            ErrorKind::Storage(k) => k.is_retryable(),
        }
    }

    /// The machine-readable name of this kind.
    pub fn to_machine_string(&self) -> (res: String)
        ensures
            res@ == self.machine_name(),
    {
        match self {
            ErrorKind::NotFound => String::from_str("not_found"),
            ErrorKind::PermissionDenied => String::from_str("permission_denied"),
            ErrorKind::Timeout => String::from_str("timeout"),
            ErrorKind::Validation => String::from_str("validation_error"),
            ErrorKind::Unexpected => String::from_str("unexpected_error"),
            ErrorKind::Http(k) => {
                let mut out = String::from_str("http_");
                out.append(k.to_machine_string().as_str());
                out
            },
            ErrorKind::Database(k) => {
                let mut out = String::from_str("database_");
                out.append(k.to_machine_string().as_str());
                out
            },
            ErrorKind::Storage(k) => {
                let mut out = String::from_str("storage_");
                out.append(k.to_machine_string().as_str());
                out
            },
        }
    }

    /// The human-readable name of this kind.
    pub fn to_string(&self) -> (res: String)
        ensures
            res@ == self.display_name(),
    {
        match self {
            ErrorKind::NotFound => String::from_str("not found"),
            ErrorKind::PermissionDenied => String::from_str("permission denied"),
            ErrorKind::Timeout => String::from_str("timeout"),
            ErrorKind::Validation => String::from_str("validation error"),
            ErrorKind::Unexpected => String::from_str("unexpected error"),
            ErrorKind::Http(k) => {
                let mut out = String::from_str("http error: ");
                out.append(k.to_string().as_str());
                out
            },
            ErrorKind::Database(k) => {
                let mut out = String::from_str("database error: ");
                out.append(k.to_string().as_str());
                out
            },
            ErrorKind::Storage(k) => {
                let mut out = String::from_str("storage error: ");
                out.append(k.to_string().as_str());
                out
            },
        }
    }
}

} // verus!

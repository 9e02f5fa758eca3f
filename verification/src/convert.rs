//! Conversions from the error types of the standard library.
//!
//! Each conversion fixes the kind and the status of the error; the
//! message is what the source error displays as, behind a fixed prefix for
//! all but I/O errors.

use vstd::prelude::*;
use vstd::string::{to_string_from_display_ensures, StringExecFns};
use vstd::std_specs::convert::FromSpecImpl;
use vstd::pervasive::arbitrary;
use crate::error::Error;
use crate::kind::ErrorKind;
use crate::status::ErrorStatus;

verus! {

/// `std::io::Error`, carried through as it is.
#[verifier::external_type_specification]
#[verifier::external_body]
pub struct ExIoError(std::io::Error);

/// `std::io::ErrorKind`, with its variants.
#[verifier::external_type_specification]
pub struct ExIoErrorKind(std::io::ErrorKind);

/// `std::str::Utf8Error`, carried through as it is.
#[verifier::external_type_specification]
#[verifier::external_body]
pub struct ExUtf8Error(std::str::Utf8Error);

/// `std::string::FromUtf8Error`, carried through as it is.
#[verifier::external_type_specification]
#[verifier::external_body]
pub struct ExFromUtf8Error(std::string::FromUtf8Error);

/// `std::num::ParseIntError`, carried through as it is.
#[verifier::external_type_specification]
#[verifier::external_body]
pub struct ExParseIntError(std::num::ParseIntError);

/// `std::fmt::Error`, carried through as it is.
#[verifier::external_type_specification]
#[verifier::external_body]
pub struct ExFmtError(std::fmt::Error);

/// `std::array::TryFromSliceError`, carried through as it is.
#[verifier::external_type_specification]
#[verifier::external_body]
pub struct ExTryFromSliceError(std::array::TryFromSliceError);

/// `std::time::SystemTimeError`, carried through as it is.
#[verifier::external_type_specification]
#[verifier::external_body]
pub struct ExSystemTimeError(std::time::SystemTimeError);

/// `std::num::ParseFloatError`, carried through as it is.
#[verifier::external_type_specification]
#[verifier::external_body]
pub struct ExParseFloatError(std::num::ParseFloatError);

/// `std::sync::PoisonError`, carried through as it is.
#[verifier::external_type_specification]
#[verifier::external_body]
#[verifier::reject_recursive_types(T)]
pub struct ExPoisonError<T>(std::sync::PoisonError<T>);

/// The category that `std::io::Error::kind` reports for an I/O error.
pub uninterp spec fn io_error_kind(err: std::io::Error) -> std::io::ErrorKind;

/// `std::io::Error::kind`: the category of the error.
pub assume_specification[ std::io::Error::kind ](err: &std::io::Error) -> (kind: std::io::ErrorKind)
    ensures
        kind == io_error_kind(*err),
;

/// The kind and status that a category of I/O failure maps to: what is
/// missing or forbidden is permanent, bad input is a permanent validation
/// failure, a timeout and the failures of a connection or a transfer are
/// temporary, and a category that is not listed is an unexpected error
/// that persists.
pub open spec fn io_class(kind: std::io::ErrorKind) -> (ErrorKind, ErrorStatus) {
    match kind {
        std::io::ErrorKind::NotFound => (ErrorKind::NotFound, ErrorStatus::Permanent),
        std::io::ErrorKind::PermissionDenied => (
            ErrorKind::PermissionDenied,
            ErrorStatus::Permanent,
        ),
        std::io::ErrorKind::TimedOut => (ErrorKind::Timeout, ErrorStatus::Temporary),
        std::io::ErrorKind::InvalidInput | std::io::ErrorKind::InvalidData => (
            ErrorKind::Validation,
            ErrorStatus::Permanent,
        ),
        std::io::ErrorKind::AddrNotAvailable | std::io::ErrorKind::AlreadyExists => (
            ErrorKind::Unexpected,
            ErrorStatus::Permanent,
        ),
        std::io::ErrorKind::ConnectionRefused
        | std::io::ErrorKind::ConnectionReset
        | std::io::ErrorKind::ConnectionAborted
        | std::io::ErrorKind::NotConnected
        | std::io::ErrorKind::AddrInUse
        | std::io::ErrorKind::BrokenPipe
        | std::io::ErrorKind::WouldBlock
        | std::io::ErrorKind::WriteZero
        | std::io::ErrorKind::Interrupted
        | std::io::ErrorKind::Other
        | std::io::ErrorKind::UnexpectedEof => (ErrorKind::Unexpected, ErrorStatus::Temporary),
        _ => (ErrorKind::Unexpected, ErrorStatus::Persistent),
    }
}

/// The kind and status for a category of I/O failure.
pub fn classify_io(kind: std::io::ErrorKind) -> (res: (ErrorKind, ErrorStatus))
    ensures
        res == io_class(kind),
{
    match kind {
        std::io::ErrorKind::NotFound => (ErrorKind::NotFound, ErrorStatus::Permanent),
        std::io::ErrorKind::PermissionDenied => (
            ErrorKind::PermissionDenied,
            ErrorStatus::Permanent,
        ),
        std::io::ErrorKind::ConnectionRefused => (ErrorKind::Unexpected, ErrorStatus::Temporary),
        std::io::ErrorKind::ConnectionReset => (ErrorKind::Unexpected, ErrorStatus::Temporary),
        std::io::ErrorKind::ConnectionAborted => (ErrorKind::Unexpected, ErrorStatus::Temporary),
        std::io::ErrorKind::NotConnected => (ErrorKind::Unexpected, ErrorStatus::Temporary),
        std::io::ErrorKind::AddrInUse => (ErrorKind::Unexpected, ErrorStatus::Temporary),
        std::io::ErrorKind::AddrNotAvailable => (ErrorKind::Unexpected, ErrorStatus::Permanent),
        std::io::ErrorKind::BrokenPipe => (ErrorKind::Unexpected, ErrorStatus::Temporary),
        std::io::ErrorKind::AlreadyExists => (ErrorKind::Unexpected, ErrorStatus::Permanent),
        std::io::ErrorKind::WouldBlock => (ErrorKind::Unexpected, ErrorStatus::Temporary),
        std::io::ErrorKind::InvalidInput => (ErrorKind::Validation, ErrorStatus::Permanent),
        std::io::ErrorKind::InvalidData => (ErrorKind::Validation, ErrorStatus::Permanent),
        std::io::ErrorKind::TimedOut => (ErrorKind::Timeout, ErrorStatus::Temporary),
        std::io::ErrorKind::WriteZero => (ErrorKind::Unexpected, ErrorStatus::Temporary),
        std::io::ErrorKind::Interrupted => (ErrorKind::Unexpected, ErrorStatus::Temporary),
        std::io::ErrorKind::Other => (ErrorKind::Unexpected, ErrorStatus::Temporary),
        std::io::ErrorKind::UnexpectedEof => (ErrorKind::Unexpected, ErrorStatus::Temporary),
        _ => (ErrorKind::Unexpected, ErrorStatus::Persistent),
    }
}

/// Whether `res` is a new error of the given kind and status whose message
/// is `prefix` and then a text that `source` displays as.
pub open spec fn describes<T: core::fmt::Display>(
    res: Error,
    kind: ErrorKind,
    status: ErrorStatus,
    prefix: Seq<char>,
    source: &T,
) -> bool {
    exists|text: String| #[trigger]
        to_string_from_display_ensures::<T>(source, text) && res.is_fresh(
            kind,
            status,
            prefix + text@,
        )
}

/// A new error whose message is `prefix` and then the text that `source`
/// displays as.
fn describe<T: core::fmt::Display>(
    kind: ErrorKind,
    status: ErrorStatus,
    prefix: &str,
    source: &T,
) -> (res: Error)
    ensures
        describes(res, kind, status, prefix@, source),
{
    let text = source.to_string();
    let mut message = String::from_str(prefix);
    message.append(text.as_str());
    Error::new(kind, status, message.as_str())
}

impl From<std::io::Error> for Error {
    /// An I/O error keeps its text and gets the kind and status of its
    /// category.
    fn from(err: std::io::Error) -> (res: Error)
        ensures
            describes(
                res,
                io_class(io_error_kind(err)).0,
                io_class(io_error_kind(err)).1,
                Seq::empty(),
                &err,
            ),
    {
        let (kind, status) = classify_io(err.kind());
        let res = describe(kind, status, "", &err);
        proof {
            reveal_strlit("");
        }
        res
    }
}

impl FromSpecImpl<std::io::Error> for Error {
    open spec fn obeys_from_spec() -> bool {
        false
    }

    open spec fn from_spec(err: std::io::Error) -> Error {
        arbitrary()
    }
}

impl From<std::str::Utf8Error> for Error {
    /// Invalid UTF-8 in a byte slice is a permanent validation failure.
    fn from(err: std::str::Utf8Error) -> (res: Error)
        ensures
            describes(res, ErrorKind::Validation, ErrorStatus::Permanent, "UTF-8 conversion error: "@, &err),
    {
        describe(ErrorKind::Validation, ErrorStatus::Permanent, "UTF-8 conversion error: ", &err)
    }
}

impl FromSpecImpl<std::str::Utf8Error> for Error {
    open spec fn obeys_from_spec() -> bool {
        false
    }

    open spec fn from_spec(err: std::str::Utf8Error) -> Error {
        arbitrary()
    }
}

impl From<std::string::FromUtf8Error> for Error {
    /// Invalid UTF-8 in an owned buffer is a permanent validation failure.
    fn from(err: std::string::FromUtf8Error) -> (res: Error)
        ensures
            describes(res, ErrorKind::Validation, ErrorStatus::Permanent, "UTF-8 string conversion error: "@, &err),
    {
        describe(ErrorKind::Validation, ErrorStatus::Permanent, "UTF-8 string conversion error: ", &err)
    }
}

impl FromSpecImpl<std::string::FromUtf8Error> for Error {
    open spec fn obeys_from_spec() -> bool {
        false
    }

    open spec fn from_spec(err: std::string::FromUtf8Error) -> Error {
        arbitrary()
    }
}

impl From<std::num::ParseIntError> for Error {
    /// A text that is no integer is a permanent validation failure.
    fn from(err: std::num::ParseIntError) -> (res: Error)
        ensures
            describes(res, ErrorKind::Validation, ErrorStatus::Permanent, "Integer parsing error: "@, &err),
    {
        describe(ErrorKind::Validation, ErrorStatus::Permanent, "Integer parsing error: ", &err)
    }
}

impl FromSpecImpl<std::num::ParseIntError> for Error {
    open spec fn obeys_from_spec() -> bool {
        false
    }

    open spec fn from_spec(err: std::num::ParseIntError) -> Error {
        arbitrary()
    }
}

impl From<std::num::ParseFloatError> for Error {
    /// A text that is no decimal number is a permanent validation failure.
    fn from(err: std::num::ParseFloatError) -> (res: Error)
        ensures
            describes(res, ErrorKind::Validation, ErrorStatus::Permanent, "Float parsing error: "@, &err),
    {
        describe(ErrorKind::Validation, ErrorStatus::Permanent, "Float parsing error: ", &err)
    }
}

impl FromSpecImpl<std::num::ParseFloatError> for Error {
    open spec fn obeys_from_spec() -> bool {
        false
    }

    open spec fn from_spec(err: std::num::ParseFloatError) -> Error {
        arbitrary()
    }
}

impl From<std::fmt::Error> for Error {
    /// A failure to format is unexpected and permanent.
    fn from(err: std::fmt::Error) -> (res: Error)
        ensures
            describes(res, ErrorKind::Unexpected, ErrorStatus::Permanent, "Formatting error: "@, &err),
    {
        describe(ErrorKind::Unexpected, ErrorStatus::Permanent, "Formatting error: ", &err)
    }
}

impl FromSpecImpl<std::fmt::Error> for Error {
    open spec fn obeys_from_spec() -> bool {
        false
    }

    open spec fn from_spec(err: std::fmt::Error) -> Error {
        arbitrary()
    }
}

impl From<std::array::TryFromSliceError> for Error {
    /// A slice of the wrong length is a permanent validation failure.
    fn from(err: std::array::TryFromSliceError) -> (res: Error)
        ensures
            describes(res, ErrorKind::Validation, ErrorStatus::Permanent, "Slice conversion error: "@, &err),
    {
        describe(ErrorKind::Validation, ErrorStatus::Permanent, "Slice conversion error: ", &err)
    }
}

impl FromSpecImpl<std::array::TryFromSliceError> for Error {
    open spec fn obeys_from_spec() -> bool {
        false
    }

    open spec fn from_spec(err: std::array::TryFromSliceError) -> Error {
        arbitrary()
    }
}

impl From<std::time::SystemTimeError> for Error {
    /// A clock that went backwards is unexpected and temporary.
    fn from(err: std::time::SystemTimeError) -> (res: Error)
        ensures
            describes(res, ErrorKind::Unexpected, ErrorStatus::Temporary, "System time error: "@, &err),
    {
        describe(ErrorKind::Unexpected, ErrorStatus::Temporary, "System time error: ", &err)
    }
}

impl FromSpecImpl<std::time::SystemTimeError> for Error {
    open spec fn obeys_from_spec() -> bool {
        false
    }

    open spec fn from_spec(err: std::time::SystemTimeError) -> Error {
        arbitrary()
    }
}

impl<T> From<std::sync::PoisonError<T>> for Error {
    /// A poisoned lock is unexpected and permanent.
    fn from(err: std::sync::PoisonError<T>) -> (res: Error)
        ensures
            describes(res, ErrorKind::Unexpected, ErrorStatus::Permanent, "Mutex poisoned: "@, &err),
    {
        describe(ErrorKind::Unexpected, ErrorStatus::Permanent, "Mutex poisoned: ", &err)
    }
}

impl<T> FromSpecImpl<std::sync::PoisonError<T>> for Error {
    open spec fn obeys_from_spec() -> bool {
        false
    }

    open spec fn from_spec(err: std::sync::PoisonError<T>) -> Error {
        arbitrary()
    }
}

} // verus!

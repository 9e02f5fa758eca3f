//! HTTP failures, categorized by what the caller should do.

use vstd::prelude::*;
use vstd::string::StringExecFns;
use crate::text::{decimal, push_decimal};

verus! {

/// HTTP-specific error kinds.
#[derive(Debug, Clone, Copy, PartialEq, Eq, Hash, Structural)]
pub enum HttpErrorKind {
    /// Client error (4xx status codes): the request is malformed or
    /// unauthorized.
    ClientError(u16),
    /// Server error (5xx status codes): may be temporary.
    ServerError(u16),
    /// Rate limited by the server.
    RateLimited,
    /// Network connectivity error.
    NetworkError,
    /// SSL/TLS handshake error.
    TlsError,
    /// Invalid URL or URL parsing error.
    InvalidUrl,
    /// Redirect loop detected.
    RedirectLoop,
    /// Too many redirects.
    TooManyRedirects,
    /// Request timeout.
    RequestTimeout,
    /// Content encoding error.
    EncodingError,
    /// Decoding error (e.g. invalid JSON).
    DecodingError,
}

impl HttpErrorKind {
    /// The kinds that are worth retrying: server-side and transport
    /// failures, never a fault of the request itself.
    pub open spec fn retryable(self) -> bool {
        self is ServerError || self is RateLimited || self is NetworkError || self is TlsError
            || self is RequestTimeout || self is EncodingError
    }

    /// The status code carried by a client or server error.
    pub open spec fn code(self) -> Option<u16> {
        match self {
            HttpErrorKind::ClientError(code) => Some(code),
            HttpErrorKind::ServerError(code) => Some(code),
            _ => None,
        }
    }

    /// The kind that a status code stands for: 429 is rate limiting, the
    /// rest of 400..=499 and everything from 600 up is a client error, and
    /// every other code is a server error.
    pub open spec fn of_status(status: u16) -> HttpErrorKind {
        if status == 429 {
            HttpErrorKind::RateLimited
        } else if 400 <= status <= 499 || status >= 600 {
            HttpErrorKind::ClientError(status)
        } else {
            HttpErrorKind::ServerError(status)
        }
    }

    /// The description of the status code range.
    pub open spec fn range_description(self) -> Seq<char> {
        match self {
            HttpErrorKind::ClientError(_) => "Client Error (4xx)"@,
            HttpErrorKind::ServerError(_) => "Server Error (5xx)"@,
            HttpErrorKind::RateLimited => "Rate Limited (429)"@,
            HttpErrorKind::NetworkError => "Network Error"@,
            HttpErrorKind::TlsError => "TLS/SSL Error"@,
            HttpErrorKind::InvalidUrl => "Invalid URL"@,
            HttpErrorKind::RedirectLoop => "Redirect Loop"@,
            HttpErrorKind::TooManyRedirects => "Too Many Redirects"@,
            HttpErrorKind::RequestTimeout => "Request Timeout"@,
            HttpErrorKind::EncodingError => "Encoding Error"@,
            HttpErrorKind::DecodingError => "Decoding Error"@,
        }
    }

    /// The machine-readable name: snake case, with the status code in
    /// decimal behind a client or server error.
    pub open spec fn machine_name(self) -> Seq<char> {
        match self {
            HttpErrorKind::ClientError(code) => "client_error_"@ + decimal(code as nat),
            HttpErrorKind::ServerError(code) => "server_error_"@ + decimal(code as nat),
            HttpErrorKind::RateLimited => "rate_limited"@,
            HttpErrorKind::NetworkError => "network_error"@,
            HttpErrorKind::TlsError => "tls_error"@,
            HttpErrorKind::InvalidUrl => "invalid_url"@,
            HttpErrorKind::RedirectLoop => "redirect_loop"@,
            HttpErrorKind::TooManyRedirects => "too_many_redirects"@,
            HttpErrorKind::RequestTimeout => "request_timeout"@,
            HttpErrorKind::EncodingError => "encoding_error"@,
            HttpErrorKind::DecodingError => "decoding_error"@,
        }
    }

    /// The human-readable name, with the status code in decimal behind a
    /// client or server error.
    pub open spec fn display_name(self) -> Seq<char> {
        match self {
            HttpErrorKind::ClientError(code) => "client error: "@ + decimal(code as nat),
            HttpErrorKind::ServerError(code) => "server error: "@ + decimal(code as nat),
            HttpErrorKind::RateLimited => "rate limited"@,
            HttpErrorKind::NetworkError => "network error"@,
            HttpErrorKind::TlsError => "TLS error"@,
            HttpErrorKind::InvalidUrl => "invalid URL"@,
            HttpErrorKind::RedirectLoop => "redirect loop"@,
            HttpErrorKind::TooManyRedirects => "too many redirects"@,
            HttpErrorKind::RequestTimeout => "request timeout"@,
            HttpErrorKind::EncodingError => "encoding error"@,
            HttpErrorKind::DecodingError => "decoding error"@,
        }
    }

    /// Whether this kind represents a retryable condition.
    pub fn is_retryable(&self) -> (res: bool)
        ensures
            res == self.retryable(),
    {
        match self {
            HttpErrorKind::ClientError(_) => false,
            HttpErrorKind::ServerError(_) => true,
            HttpErrorKind::RateLimited => true,
            HttpErrorKind::NetworkError => true,
            HttpErrorKind::TlsError => true,
            HttpErrorKind::InvalidUrl => false,
            HttpErrorKind::RedirectLoop => false,
            HttpErrorKind::TooManyRedirects => false,
            HttpErrorKind::RequestTimeout => true,
            HttpErrorKind::EncodingError => true,
            HttpErrorKind::DecodingError => false,
        }
    }

    /// The HTTP status code, where the kind carries one.
    pub fn status_code(&self) -> (res: Option<u16>)
        ensures
            res == self.code(),
    {
        match self {
            HttpErrorKind::ClientError(code) => Some(*code),
            HttpErrorKind::ServerError(code) => Some(*code),
            _ => None,
        }
    }

    /// The kind for an HTTP status code.
    pub fn from_status(status: u16) -> (res: Self)
        ensures
            res == Self::of_status(status),
    {
        if status == 429 {
            HttpErrorKind::RateLimited
        } else if status >= 400 && status <= 499 {
            HttpErrorKind::ClientError(status)
        } else if status >= 500 && status <= 599 {
            HttpErrorKind::ServerError(status)
        } else if status >= 400 {
            HttpErrorKind::ClientError(status)
        } else {
            HttpErrorKind::ServerError(status)
        }
    }

    /// Whether this is a client error.
    pub fn is_client_error(&self) -> (res: bool)
        ensures
            res == (*self is ClientError),
    {
        matches!(self, HttpErrorKind::ClientError(_))
    }

    /// Whether this is a server error.
    pub fn is_server_error(&self) -> (res: bool)
        ensures
            res == (*self is ServerError),
    {
        matches!(self, HttpErrorKind::ServerError(_))
    }

    /// Whether the kind carries a status code of 400 or more.
    pub fn is_error(&self) -> (res: bool)
        ensures
            res == (self.code() is Some && self.code()->0 >= 400),
    {
        match self.status_code() {
            Some(code) => code >= 400,
            None => false,
        }
    }

    /// Never: an error kind is not a success.
    pub fn is_success(&self) -> (res: bool)
        ensures
            !res,
    {
        false
    }

    /// A human-readable description of the status code range.
    pub fn status_range_description(&self) -> (res: &'static str)
        ensures
            res@ == self.range_description(),
    {
        match self {
            HttpErrorKind::ClientError(_) => "Client Error (4xx)",
            HttpErrorKind::ServerError(_) => "Server Error (5xx)",
            HttpErrorKind::RateLimited => "Rate Limited (429)",
            HttpErrorKind::NetworkError => "Network Error",
            HttpErrorKind::TlsError => "TLS/SSL Error",
            HttpErrorKind::InvalidUrl => "Invalid URL",
            HttpErrorKind::RedirectLoop => "Redirect Loop",
            HttpErrorKind::TooManyRedirects => "Too Many Redirects",
            HttpErrorKind::RequestTimeout => "Request Timeout",
            HttpErrorKind::EncodingError => "Encoding Error",
            HttpErrorKind::DecodingError => "Decoding Error",
        }
    }

    /// The machine-readable name of this kind.
    pub fn to_machine_string(&self) -> (res: String)
        ensures
            res@ == self.machine_name(),
    {
        match self {
            HttpErrorKind::ClientError(code) => {
                let mut out = String::from_str("client_error_");
                push_decimal(&mut out, *code);
                out
            },
            HttpErrorKind::ServerError(code) => {
                let mut out = String::from_str("server_error_");
                push_decimal(&mut out, *code);
                out
            },
            HttpErrorKind::RateLimited => String::from_str("rate_limited"),
            HttpErrorKind::NetworkError => String::from_str("network_error"),
            HttpErrorKind::TlsError => String::from_str("tls_error"),
            HttpErrorKind::InvalidUrl => String::from_str("invalid_url"),
            HttpErrorKind::RedirectLoop => String::from_str("redirect_loop"),
            HttpErrorKind::TooManyRedirects => String::from_str("too_many_redirects"),
            HttpErrorKind::RequestTimeout => String::from_str("request_timeout"),
            HttpErrorKind::EncodingError => String::from_str("encoding_error"),
            HttpErrorKind::DecodingError => String::from_str("decoding_error"),
        }
    }

    /// The human-readable name of this kind.
    pub fn to_string(&self) -> (res: String)
        ensures
            res@ == self.display_name(),
    {
        match self {
            HttpErrorKind::ClientError(code) => {
                let mut out = String::from_str("client error: ");
                push_decimal(&mut out, *code);
                out
            },
            HttpErrorKind::ServerError(code) => {
                let mut out = String::from_str("server error: ");
                push_decimal(&mut out, *code);
                out
            },
            HttpErrorKind::RateLimited => String::from_str("rate limited"),
            HttpErrorKind::NetworkError => String::from_str("network error"),
            HttpErrorKind::TlsError => String::from_str("TLS error"),
            HttpErrorKind::InvalidUrl => String::from_str("invalid URL"),
            HttpErrorKind::RedirectLoop => String::from_str("redirect loop"),
            HttpErrorKind::TooManyRedirects => String::from_str("too many redirects"),
            HttpErrorKind::RequestTimeout => String::from_str("request timeout"),
            HttpErrorKind::EncodingError => String::from_str("encoding error"),
            HttpErrorKind::DecodingError => String::from_str("decoding error"),
        }
    }
}

} // verus!

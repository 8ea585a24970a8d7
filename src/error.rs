//! The closed error taxonomy and the mapping from HTTP status codes onto it.

use vstd::prelude::*;

verus! {

/// The kinds of failure that callers of the layer can observe.
#[derive(Clone, Copy, Debug, PartialEq, Eq, Structural)]
pub enum ErrorKind {
    /// Bad builder input, reported before any network call.
    ConfigInvalid,
    NotFound,
    PermissionDenied,
    /// The operation cannot be expressed by this backend.
    Unsupported,
    /// Any other transport or protocol failure.
    Unexpected,
}

/// An error with its kind and the context of the operation that raised it.
#[derive(Debug)]
pub struct Error {
    pub kind: ErrorKind,
    pub message: String,
    pub operation: String,
    pub service: String,
    /// The raw status code of the response that caused the error, if any.
    pub status: Option<u16>,
}

/// The kind that a raw, non-success status code maps to.
pub open spec fn status_kind(status: u16) -> ErrorKind {
    if status == 404 {
        ErrorKind::NotFound
    } else if status == 401 || status == 403 {
        ErrorKind::PermissionDenied
    } else {
        ErrorKind::Unexpected
    }
}

/// Whether a status code is in the 2xx class.
pub open spec fn is_success_status(status: u16) -> bool {
    200 <= status && status <= 299
}

impl Error {
    pub fn new(kind: ErrorKind, message: &str) -> (r: Error)
        ensures
            r.kind == kind,
            r.message@ == message@,
            r.operation@.len() == 0,
            r.service@.len() == 0,
            r.status.is_none(),
    {
        Error {
            kind,
            message: String::from_str(message),
            operation: String::new(),
            service: String::new(),
            status: None,
        }
    }

    /// Attaches the name of the operation that failed.
    pub fn with_operation(self, operation: &str) -> (r: Error)
        ensures
            r.kind == self.kind,
            r.operation@ == operation@,
            r.message == self.message,
            r.service == self.service,
            r.status == self.status,
    {
        Error { operation: String::from_str(operation), ..self }
    }

    /// Attaches the name of the service that failed.
    pub fn with_service(self, service: &str) -> (r: Error)
        ensures
            r.kind == self.kind,
            r.service@ == service@,
            r.message == self.message,
            r.operation == self.operation,
            r.status == self.status,
    {
        Error { service: String::from_str(service), ..self }
    }

    pub fn kind(&self) -> (r: ErrorKind)
        ensures
            r == self.kind,
    {
        self.kind
    }
}

/// Maps a raw status code to its kind.
pub fn kind_of_status(status: u16) -> (r: ErrorKind)
    ensures
        r == status_kind(status),
{
    if status == 404 {
        ErrorKind::NotFound
    } else if status == 401 || status == 403 {
        ErrorKind::PermissionDenied
    } else {
        ErrorKind::Unexpected
    }
}

pub fn is_success(status: u16) -> (r: bool)
    ensures
        r == is_success_status(status),
{
    200 <= status && status <= 299
}

/// Normalises a failed response into an error of the layer, keeping the raw
/// status for diagnostics.
pub fn parse_error(service: &str, operation: &str, status: u16) -> (r: Error)
    ensures
        r.kind == status_kind(status),
        r.status == Some(status),
        r.service@ == service@,
        r.operation@ == operation@,
{
    let kind = kind_of_status(status);
    let e = Error::new(kind, "the service returned an error response");
    let e = e.with_service(service).with_operation(operation);
    Error { status: Some(status), ..e }
}

/// An error raised by operation `operation` of service `service`.
pub fn error_in(kind: ErrorKind, message: &str, service: &str, operation: &str) -> (r: Error)
    ensures
        r.kind == kind,
        r.message@ == message@,
        r.service@ == service@,
        r.operation@ == operation@,
        r.status.is_none(),
{
    Error::new(kind, message).with_service(service).with_operation(operation)
}

/// The error of a response that reports a missing entry with a status other
/// than 404 (a cache lookup answers a miss with 204).
pub fn missing_entry(service: &str, operation: &str, status: u16) -> (r: Error)
    ensures
        r.kind == ErrorKind::NotFound,
        r.status == Some(status),
        r.service@ == service@,
        r.operation@ == operation@,
{
    let e = error_in(ErrorKind::NotFound, "the entry does not exist", service, operation);
    Error { status: Some(status), ..e }
}

} // verus!

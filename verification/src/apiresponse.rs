//! The response envelope every endpoint answers with, and the error taxonomy
//! of the service.

use vstd::prelude::*;

verus! {

/// Envelope of every response: a success flag and an optional payload.
#[derive(Debug)]
pub struct APIResponse<T> {
    pub success: bool,
    pub data: Option<T>,
}

/// Error detail of a failed response. Every field is independently optional.
#[derive(Debug, PartialEq)]
pub struct APIError {
    /// None when the response itself carries the code.
    pub status_code: Option<u16>,
    /// A message fit to show a person, when one exists.
    pub user_friendly_message: Option<String>,
    /// A machine-readable code specific to the failing endpoint.
    pub error_code: Option<String>,
}

impl<T> APIResponse<T> {
    pub fn new(success: bool, data: Option<T>) -> (r: APIResponse<T>)
        ensures
            r.success == success,
            r.data == data,
    {
        APIResponse { success, data }
    }
}

/// Why a request failed. `Unauthorized` deliberately covers both a missing
/// credential and a failed match, so a caller cannot probe which usernames or
/// codes exist.
#[derive(Clone, Copy, Debug, PartialEq, Eq, Structural)]
pub enum ErrorKind {
    Unauthorized,
    NotFound,
    BadRequest,
    /// The external identity provider could not be reached or refused; safe
    /// to retry, nothing was persisted.
    ExternalServiceError,
    /// A persistence failure.
    Internal,
}

/// The HTTP status that each error kind maps to.
pub open spec fn spec_status_of(kind: ErrorKind) -> u16 {
    match kind {
        ErrorKind::Unauthorized => 401,
        ErrorKind::NotFound => 404,
        ErrorKind::BadRequest => 400,
        ErrorKind::ExternalServiceError => 500,
        ErrorKind::Internal => 500,
    }
}

/// Builds the error detail for a failed request: the mapped status code and a
/// machine-readable name, with no user-facing message (the host adds one
/// where it wants to).
pub fn error_details(kind: &ErrorKind) -> (r: APIError)
    ensures
        r.status_code == Some(spec_status_of(*kind)),
        r.user_friendly_message is None,
        match kind {
            ErrorKind::Unauthorized => (r.error_code matches Some(c) && c@ == "unauthorized"@),
            ErrorKind::NotFound => (r.error_code matches Some(c) && c@ == "not_found"@),
            ErrorKind::BadRequest => (r.error_code matches Some(c) && c@ == "bad_request"@),
            ErrorKind::ExternalServiceError => (r.error_code matches Some(c) && c@
                == "external_service_error"@),
            ErrorKind::Internal => (r.error_code matches Some(c) && c@ == "internal"@),
        },
{
    let (status, code): (u16, &str) = match kind {
        ErrorKind::Unauthorized => (401, "unauthorized"),
        ErrorKind::NotFound => (404, "not_found"),
        ErrorKind::BadRequest => (400, "bad_request"),
        ErrorKind::ExternalServiceError => (500, "external_service_error"),
        ErrorKind::Internal => (500, "internal"),
    };
    APIError {
        status_code: Some(status),
        user_friendly_message: None,
        error_code: Some(code.to_owned()),
    }
}

} // verus!

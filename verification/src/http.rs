//! Classification of an HTTP exchange's outcome into the error taxonomy.
//!
//! The transport itself lives outside the library; it hands in the status
//! code and the body text it observed, and this module decides what they
//! mean.

use vstd::prelude::*;

use crate::error::Error;

verus! {

/// Everything a provider decides about one outgoing request before any
/// network activity: the path below the provider's base URL, the model
/// identifier for the request body, and the prompt text.
#[derive(Debug, Clone)]
pub struct RequestPlan {
    /// The request path, relative to the provider's base URL.
    pub path: String,
    /// The model identifier to place in the request body.
    pub model: String,
    /// The prompt text to place in the request body.
    pub text: String,
    /// Whether the body asks the provider to stream the response.
    pub stream: bool,
}

/// Whether a status code counts as success (2xx).
pub open spec fn spec_is_success(status: u16) -> bool {
    200 <= status < 300
}

/// Passes a success body through; turns any non-2xx status into
/// `ApiError` carrying the numeric status and the raw body text verbatim.
pub fn check_status(status: u16, body: String) -> (r: Result<String, Error>)
    ensures
        spec_is_success(status) ==> r == Ok::<String, Error>(body),
        !spec_is_success(status) ==> (r matches Err(Error::ApiError { status: s, message })
            && s == status && message == body),
{
    if 200 <= status && status < 300 {
        Ok(body)
    } else {
        Err(Error::ApiError { status, message: body })
    }
}

/// Turns a transport-level failure (connection, TLS, timeout), reported as
/// its textual detail, into `TransportError`.
pub fn transport_error(detail: String) -> (r: Error)
    ensures
        r == Error::TransportError(detail),
{
    Error::TransportError(detail)
}

} // verus!

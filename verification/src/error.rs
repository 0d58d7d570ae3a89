//! The error taxonomy shared by all providers.
//!
//! Every failure a provider can produce is a value of [`Error`]:
//! transport failures, non-2xx HTTP statuses, undecodable success bodies,
//! foreign models, and provider-specific configuration failures. Provider
//! detail is embedded as data, never as new kinds.

use vstd::prelude::*;

use crate::strutil::{dec_digits, u64_to_string};

verus! {

/// The closed set of error kinds of this library.
#[derive(Debug, Clone)]
pub enum Error {
    /// The transport failed before an HTTP status was obtained
    /// (connection, TLS, timeout); carries the transport's own detail.
    TransportError(String),
    /// The provider answered with a non-2xx status; `message` is the raw
    /// response body, never parsed.
    ApiError { status: u16, message: String },
    /// A success body or a streaming payload did not decode against the
    /// provider's schema; carries the decoder's own detail.
    ParseError(String),
    /// A model value was narrowed by a provider it does not belong to;
    /// carries the wire identifier the caller supplied.
    InvalidModelError(String),
    /// A provider-specific setup or configuration failure.
    ProviderError { provider: String, error: String },
}

impl Error {
    /// The rendering of this error as one line of text.
    pub open spec fn spec_message(self) -> Seq<char> {
        match self {
            Error::TransportError(detail) => "Request failed: "@ + detail@,
            Error::ApiError { status, message } => "Api error: "@ + dec_digits(status as nat)
                + " - "@ + message@ + " "@,
            Error::ParseError(_) => "Failed to parse the response"@,
            Error::InvalidModelError(model) => "Invalid model name: "@ + model@,
            Error::ProviderError { provider, error } => "Provider settings error: "@ + provider@
                + " : "@ + error@,
        }
    }

    /// Renders the error as one line of text.
    pub fn message(&self) -> (r: String)
        ensures
            r@ == self.spec_message(),
    {
        match self {
            Error::TransportError(detail) => {
                let r = "Request failed: ".to_owned().concat(detail.as_str());
                proof {
                    assert(r@ =~= self.spec_message());
                }
                r
            },
            Error::ApiError { status, message } => {
                let digits = u64_to_string(*status as u64);
                let r = "Api error: ".to_owned().concat(digits.as_str()).concat(" - ").concat(
                    message.as_str(),
                ).concat(" ");
                proof {
                    assert(r@ =~= self.spec_message());
                }
                r
            },
            Error::ParseError(_) => "Failed to parse the response".to_owned(),
            Error::InvalidModelError(model) => {
                let r = "Invalid model name: ".to_owned().concat(model.as_str());
                proof {
                    assert(r@ =~= self.spec_message());
                }
                r
            },
            Error::ProviderError { provider, error } => {
                let r = "Provider settings error: ".to_owned().concat(provider.as_str()).concat(
                    " : ",
                ).concat(error.as_str());
                proof {
                    assert(r@ =~= self.spec_message());
                }
                r
            },
        }
    }
}

} // verus!

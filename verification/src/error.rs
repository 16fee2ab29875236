//! Errors of the library, and the decoder of the service's error envelope.
//!
//! The remote service does not tag its error bodies uniformly: it may
//! answer with `{error_message, error_id}`, with `{message, error}`, or
//! with a bare JSON string when a rate limit was hit.  The decoder tries
//! the shapes in that fixed order, object shapes before the bare-string
//! fallback, so that a string which happens to look like an object text
//! is never misread.

use crate::json::{spec_str_field, JsonValue};
use vstd::prelude::*;

verus! {

/// The mathematical shape of a decoded error envelope.
pub enum ApiErrorModel {
    Gen { error_message: Seq<char>, error_id: Seq<char> },
    Internal { message: Seq<char>, error: Seq<char> },
    RateLimit(Seq<char>),
}

/// A decoded error envelope, as the remote service reports failures.
#[derive(Debug, Clone, PartialEq)]
pub enum APIError {
    /// A generic error with a strict schema: `{error_message, error_id}`.
    Gen { error_message: String, error_id: String },
    /// An error of the service's own: `{message, error}`.
    Internal { message: String, error: String },
    /// A bare string telling that a rate limit quota was hit.
    RateLimit(String),
}

impl View for APIError {
    type V = ApiErrorModel;

    open spec fn view(&self) -> ApiErrorModel {
        match self {
            APIError::Gen { error_message, error_id } => ApiErrorModel::Gen {
                error_message: error_message@,
                error_id: error_id@,
            },
            APIError::Internal { message, error } => ApiErrorModel::Internal {
                message: message@,
                error: error@,
            },
            APIError::RateLimit(s) => ApiErrorModel::RateLimit(s@),
        }
    }
}

/// The mathematical shape of a library error.
pub enum ErrorModel {
    ConfigError(Seq<char>),
    HeaderError(Seq<char>),
    UrlError(Seq<char>),
    TransportError(Seq<char>),
    DecodeError(Seq<char>),
    APIError(ApiErrorModel),
}

/// Every failure a library operation can report.
#[derive(Debug, Clone, PartialEq)]
pub enum Error {
    /// The configuration never reached a valid state.
    ConfigError(String),
    /// A header name or value held characters illegal for HTTP.
    HeaderError(String),
    /// A path concatenation did not parse as an absolute URL.
    UrlError(String),
    /// A connection-level failure, surfaced as reported.
    TransportError(String),
    /// A response body did not match the expected shape.
    DecodeError(String),
    /// The remote service itself reported a failure.
    APIError(APIError),
}

impl View for Error {
    type V = ErrorModel;

    open spec fn view(&self) -> ErrorModel {
        match self {
            Error::ConfigError(s) => ErrorModel::ConfigError(s@),
            Error::HeaderError(s) => ErrorModel::HeaderError(s@),
            Error::UrlError(s) => ErrorModel::UrlError(s@),
            Error::TransportError(s) => ErrorModel::TransportError(s@),
            Error::DecodeError(s) => ErrorModel::DecodeError(s@),
            Error::APIError(e) => ErrorModel::APIError(e@),
        }
    }
}

impl APIError {
    /// The envelope's message, as a reader of logs would see it.
    pub open spec fn spec_message(self) -> Seq<char> {
        match self {
            APIError::Gen { error_message, error_id } => "Generic API error: "@ + error_message@
                + " ("@ + error_id@ + ")"@,
            APIError::Internal { message, error } => "Internal API error: "@ + message@ + " ("@
                + error@ + ")"@,
            APIError::RateLimit(s) => "Rate limit exceeded: "@ + s@,
        }
    }

    /// Writes the envelope out as one line of text.
    pub fn to_message(&self) -> (r: String)
        ensures
            r@ == self.spec_message(),
    {
        match self {
            APIError::Gen { error_message, error_id } => {
                let m = String::from_str("Generic API error: ").concat(
                    error_message.as_str(),
                ).concat(" (").concat(error_id.as_str()).concat(")");
                proof {
                    assert(m@ =~= self.spec_message());
                }
                m
            },
            APIError::Internal { message, error } => {
                let m = String::from_str("Internal API error: ").concat(message.as_str()).concat(
                    " (",
                ).concat(error.as_str()).concat(")");
                proof {
                    assert(m@ =~= self.spec_message());
                }
                m
            },
            APIError::RateLimit(s) => {
                let m = String::from_str("Rate limit exceeded: ").concat(s.as_str());
                proof {
                    assert(m@ =~= self.spec_message());
                }
                m
            },
        }
    }
}

impl Error {
    /// The error's message, as a reader of logs would see it.
    pub open spec fn spec_message(self) -> Seq<char> {
        match self {
            Error::ConfigError(s) => "Client build error: "@ + s@,
            Error::HeaderError(s) => "Header error: "@ + s@,
            Error::UrlError(s) => "URL error: "@ + s@,
            Error::TransportError(s) => "Transport error: "@ + s@,
            Error::DecodeError(s) => "Decode error: "@ + s@,
            Error::APIError(e) => "API error: "@ + e.spec_message(),
        }
    }

    /// Writes the error out as one line of text.
    pub fn to_message(&self) -> (r: String)
        ensures
            r@ == self.spec_message(),
    {
        match self {
            Error::ConfigError(s) => String::from_str("Client build error: ").concat(s.as_str()),
            Error::HeaderError(s) => String::from_str("Header error: ").concat(s.as_str()),
            Error::UrlError(s) => String::from_str("URL error: ").concat(s.as_str()),
            Error::TransportError(s) => String::from_str("Transport error: ").concat(s.as_str()),
            Error::DecodeError(s) => String::from_str("Decode error: ").concat(s.as_str()),
            Error::APIError(e) => String::from_str("API error: ").concat(e.to_message().as_str()),
        }
    }
}

/// Which error envelope an arbitrary JSON value decodes to, if any.
///
/// The shapes are tried in a fixed order, first match wins: an object
/// holding string fields `error_message` and `error_id` is a generic
/// error; otherwise an object holding string fields `message` and
/// `error` is an internal error; a bare string is a rate-limit notice;
/// everything else matches no known shape.
pub open spec fn spec_decode_api_error(v: JsonValue) -> Option<ApiErrorModel> {
    match v {
        JsonValue::Object(fields) => match (
            spec_str_field(fields@, "error_message"@),
            spec_str_field(fields@, "error_id"@),
        ) {
            (Some(m), Some(id)) => Some(ApiErrorModel::Gen { error_message: m, error_id: id }),
            _ => match (spec_str_field(fields@, "message"@), spec_str_field(fields@, "error"@)) {
                (Some(m), Some(e)) => Some(ApiErrorModel::Internal { message: m, error: e }),
                _ => None,
            },
        },
        JsonValue::Text(s) => Some(ApiErrorModel::RateLimit(s@)),
        _ => None,
    }
}

/// Decodes an arbitrary JSON value into exactly one error envelope, or
/// fails when the value matches none of the known shapes.
pub fn decode_api_error(v: &JsonValue) -> (r: Result<APIError, Error>)
    ensures
        match r {
            Ok(e) => spec_decode_api_error(*v) == Some(e@),
            Err(err) => spec_decode_api_error(*v) is None && err@ == ErrorModel::DecodeError(
                "Unknown API error format"@,
            ),
        },
{
    match v {
        JsonValue::Object(fields) => {
            let m = crate::json::lookup_str_field(fields, &String::from_str("error_message"));
            let id = crate::json::lookup_str_field(fields, &String::from_str("error_id"));
            match (m, id) {
                (Some(m), Some(id)) => Ok(
                    APIError::Gen { error_message: m.clone(), error_id: id.clone() },
                ),
                _ => {
                    let msg = crate::json::lookup_str_field(fields, &String::from_str("message"));
                    let err = crate::json::lookup_str_field(fields, &String::from_str("error"));
                    match (msg, err) {
                        (Some(msg), Some(err)) => Ok(
                            APIError::Internal { message: msg.clone(), error: err.clone() },
                        ),
                        _ => Err(Error::DecodeError(String::from_str("Unknown API error format"))),
                    }
                },
            }
        },
        JsonValue::Text(s) => Ok(APIError::RateLimit(s.clone())),
        _ => Err(Error::DecodeError(String::from_str("Unknown API error format"))),
    }
}

} // verus!

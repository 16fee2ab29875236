//! Request assembly and response classification.
//!
//! A request is built fresh per call from the configuration: method,
//! target URL (base plus path), merged headers (per-call overrides win
//! over the configuration's), and a body that is absent, one JSON
//! document, or a multipart form.  A completed response is classified
//! by its status class alone, before any payload is decoded: the
//! success class decodes into the endpoint's expected type, everything
//! else resolves into the error envelope.

use crate::error::{Error, ErrorModel};
use crate::headers::Headers;
use crate::json::{json_parse, parse_json, JsonValue};
use vstd::prelude::*;

verus! {

/// True exactly when an HTTP status code belongs to the success class.
pub open spec fn spec_is_success_status(status: u16) -> bool {
    200 <= status && status <= 299
}

/// Classifies an HTTP status code: the success class is 2xx, everything
/// else is a failure to be resolved into an error envelope.
pub fn is_success_status(status: u16) -> (r: bool)
    ensures
        r == spec_is_success_status(status),
{
    200 <= status && status <= 299
}

/// The HTTP methods the client dispatches with.
#[derive(Debug, Clone, Copy, PartialEq, Eq, Structural)]
pub enum Method {
    Get,
    Post,
    Delete,
}

/// One named part of a multipart form: plain text or the bytes of a
/// file, each with its own declared media type.
#[derive(Debug, Clone, PartialEq)]
pub struct FormPart {
    pub name: String,
    pub filename: Option<String>,
    pub mime: String,
    pub content: Vec<u8>,
}

/// A request body: absent, one JSON document, or a multipart form.
#[derive(Debug, Clone, PartialEq)]
pub enum RequestBody {
    Empty,
    Json(Vec<u8>),
    Multipart(Vec<FormPart>),
}

/// A request, assembled and never mutated after it is built.
#[derive(Debug)]
pub struct ApiRequest {
    pub method: Method,
    pub url: String,
    pub headers: Headers,
    pub body: RequestBody,
}

/// Builds a request from the configuration: the URL is the base
/// endpoint with the path appended, and on a header name collision the
/// per-call override wins.
pub fn build_request(
    config: &crate::config::ClientConfig,
    method: Method,
    path: &str,
    overrides: &Headers,
    body: RequestBody,
) -> (r: ApiRequest)
    requires
        config.headers.wf(),
        overrides.wf(),
    ensures
        r.method == method,
        r.url@ == config.url@ + path@,
        r.headers@ == config.headers@.union_prefer_right(overrides@),
        r.headers.wf(),
        r.body == body,
{
    let url = config.url.clone().concat(path);
    let headers = config.headers.merged_with(overrides);
    ApiRequest { method, url, headers, body }
}

/// How a failure body resolves into an error: a body that parses as
/// JSON and matches a known envelope shape is the remote service's own
/// report; a parsed body of unknown shape, and a body that is not JSON
/// at all, are decode failures.
pub open spec fn spec_failure_of_body(bytes: Seq<u8>) -> ErrorModel {
    match json_parse(bytes) {
        Some(v) => match crate::error::spec_decode_api_error(v) {
            Some(e) => ErrorModel::APIError(e),
            None => ErrorModel::DecodeError("Unknown API error format"@),
        },
        None => ErrorModel::DecodeError("invalid JSON in response body"@),
    }
}

/// Resolves the body of a failed response into an error.
pub fn decode_error_body(body: &Vec<u8>) -> (r: Error)
    ensures
        r@ == spec_failure_of_body(body@),
{
    match parse_json(body) {
        Some(v) => match crate::error::decode_api_error(&v) {
            Ok(e) => Error::APIError(e),
            Err(err) => err,
        },
        None => Error::DecodeError(String::from_str("invalid JSON in response body")),
    }
}

/// Classifies a completed response by its status class, before any
/// payload is decoded: a success-class status passes, any other status
/// resolves the body into an error envelope.  Both dispatch and the
/// streaming relay classify through here.
pub fn classify_response(status: u16, body: &Vec<u8>) -> (r: Result<(), Error>)
    ensures
        spec_is_success_status(status) ==> r is Ok,
        !spec_is_success_status(status) ==> (r matches Err(e) && e@ == spec_failure_of_body(
            body@,
        )),
{
    if is_success_status(status) {
        Ok(())
    } else {
        Err(decode_error_body(body))
    }
}

} // verus!

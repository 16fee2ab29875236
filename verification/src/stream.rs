//! Streaming synthesized audio in real time.
//!
//! An audio stream is either relayed directly — see the relay — or
//! reached through a stream URL the service hands out first.  This
//! module holds the stream-URL record and its decoder.

use crate::error::{Error, ErrorModel};
use crate::json::{json_parse, lookup_str_field, parse_json, spec_str_field, JsonValue};
use crate::request::{spec_failure_of_body, spec_is_success_status};
use vstd::prelude::*;

verus! {

/// URL path for requesting audio streams.
pub const TTS_STREAM_PATH: &'static str = "/tts/stream";

/// The mathematical shape of a stream-URL record.
pub struct TTSStreamURLModel {
    pub href: Seq<char>,
    pub method: Seq<char>,
    pub content_type: Seq<char>,
    pub rel: Seq<char>,
    pub description: Seq<char>,
}

/// Where and how to fetch an audio stream.
#[derive(Debug, Clone, PartialEq)]
pub struct TTSStreamURL {
    pub href: String,
    pub method: String,
    pub content_type: String,
    pub rel: String,
    pub description: String,
}

impl View for TTSStreamURL {
    type V = TTSStreamURLModel;

    open spec fn view(&self) -> TTSStreamURLModel {
        TTSStreamURLModel {
            href: self.href@,
            method: self.method@,
            content_type: self.content_type@,
            rel: self.rel@,
            description: self.description@,
        }
    }
}

/// Which stream-URL record a JSON value stands for, if any: an object
/// with string fields `href`, `method`, `contentType`, `rel` and
/// `description`.
pub open spec fn spec_stream_url_of(v: JsonValue) -> Option<TTSStreamURLModel> {
    match v {
        JsonValue::Object(fields) => {
            let fs = fields@;
            if spec_str_field(fs, "href"@) is Some && spec_str_field(fs, "method"@) is Some
                && spec_str_field(fs, "contentType"@) is Some && spec_str_field(fs, "rel"@) is Some
                && spec_str_field(fs, "description"@) is Some {
                Some(
                    TTSStreamURLModel {
                        href: spec_str_field(fs, "href"@)->0,
                        method: spec_str_field(fs, "method"@)->0,
                        content_type: spec_str_field(fs, "contentType"@)->0,
                        rel: spec_str_field(fs, "rel"@)->0,
                        description: spec_str_field(fs, "description"@)->0,
                    },
                )
            } else {
                None
            }
        },
        _ => None,
    }
}

/// Decodes one stream-URL record.
pub fn stream_url_from_json(v: &JsonValue) -> (r: Option<TTSStreamURL>)
    ensures
        match r {
            Some(u) => spec_stream_url_of(*v) == Some(u@),
            None => spec_stream_url_of(*v) is None,
        },
{
    let fields = match v {
        JsonValue::Object(fields) => fields,
        _ => {
            return None;
        },
    };
    let href = match lookup_str_field(fields, &String::from_str("href")) {
        Some(s) => s.clone(),
        None => {
            return None;
        },
    };
    let method = match lookup_str_field(fields, &String::from_str("method")) {
        Some(s) => s.clone(),
        None => {
            return None;
        },
    };
    let content_type = match lookup_str_field(fields, &String::from_str("contentType")) {
        Some(s) => s.clone(),
        None => {
            return None;
        },
    };
    let rel = match lookup_str_field(fields, &String::from_str("rel")) {
        Some(s) => s.clone(),
        None => {
            return None;
        },
    };
    let description = match lookup_str_field(fields, &String::from_str("description")) {
        Some(s) => s.clone(),
        None => {
            return None;
        },
    };
    Some(TTSStreamURL { href, method, content_type, rel, description })
}

/// Classifies and decodes the answer to a stream-URL request: a
/// success-class status must carry one stream-URL record, any other
/// status resolves into the error envelope.
pub fn decode_stream_url_response(status: u16, body: &Vec<u8>) -> (r: Result<TTSStreamURL, Error>)
    ensures
        spec_is_success_status(status) ==> (match json_parse(body@) {
            Some(v) => match spec_stream_url_of(v) {
                Some(m) => r matches Ok(u) && u@ == m,
                None => r matches Err(e) && e@ == ErrorModel::DecodeError(
                    "unexpected response body"@,
                ),
            },
            None => r matches Err(e) && e@ == ErrorModel::DecodeError(
                "invalid JSON in response body"@,
            ),
        }),
        !spec_is_success_status(status) ==> (r matches Err(e) && e@ == spec_failure_of_body(
            body@,
        )),
{
    if !crate::request::is_success_status(status) {
        return Err(crate::request::decode_error_body(body));
    }
    match parse_json(body) {
        Some(v) => match stream_url_from_json(&v) {
            Some(u) => Ok(u),
            None => Err(Error::DecodeError(String::from_str("unexpected response body"))),
        },
        None => Err(Error::DecodeError(String::from_str("invalid JSON in response body"))),
    }
}

} // verus!

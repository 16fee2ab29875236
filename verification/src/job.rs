//! Asynchronous synthesis jobs: paths and progress metadata.
//!
//! A job is created, fetched and monitored under its own URL; its
//! metadata carries progress links.  This module holds the job paths
//! and the link record with its decoder.

use crate::json::{lookup_opt_str_field, spec_opt_str_field, JsonValue};
use vstd::prelude::*;

verus! {

/// URL path for creating and fetching synthesis jobs.
pub const TTS_JOB_PATH: &'static str = "/tts";

/// The path of one job, under its identifier.
pub fn tts_job_path(id: &str) -> (r: String)
    ensures
        r@ == TTS_JOB_PATH@ + "/"@ + id@,
{
    let r = String::from_str(TTS_JOB_PATH).concat("/").concat(id);
    r
}

/// The mathematical shape of a progress link.
pub struct LinkModel {
    pub content_type: Option<Seq<char>>,
    pub description: Option<Seq<char>>,
    pub href: Option<Seq<char>>,
    pub method: Option<Seq<char>>,
    pub rel: Option<Seq<char>>,
}

/// One progress link of a job's metadata; every part of it is optional.
#[derive(Debug, Clone, PartialEq)]
pub struct Link {
    pub content_type: Option<String>,
    pub description: Option<String>,
    pub href: Option<String>,
    pub method: Option<String>,
    pub rel: Option<String>,
}

impl View for Link {
    type V = LinkModel;

    open spec fn view(&self) -> LinkModel {
        LinkModel {
            content_type: self.content_type.deep_view(),
            description: self.description.deep_view(),
            href: self.href.deep_view(),
            method: self.method.deep_view(),
            rel: self.rel.deep_view(),
        }
    }
}

/// Which link record a JSON value stands for, if any: an object whose
/// fields `contentType`, `description`, `href`, `method` and `rel` are
/// each text, `null`, or absent.
pub open spec fn spec_link_of(v: JsonValue) -> Option<LinkModel> {
    match v {
        JsonValue::Object(fields) => {
            let fs = fields@;
            if spec_opt_str_field(fs, "contentType"@) is Some && spec_opt_str_field(
                fs,
                "description"@,
            ) is Some && spec_opt_str_field(fs, "href"@) is Some && spec_opt_str_field(
                fs,
                "method"@,
            ) is Some && spec_opt_str_field(fs, "rel"@) is Some {
                Some(
                    LinkModel {
                        content_type: spec_opt_str_field(fs, "contentType"@)->0,
                        description: spec_opt_str_field(fs, "description"@)->0,
                        href: spec_opt_str_field(fs, "href"@)->0,
                        method: spec_opt_str_field(fs, "method"@)->0,
                        rel: spec_opt_str_field(fs, "rel"@)->0,
                    },
                )
            } else {
                None
            }
        },
        _ => None,
    }
}

/// Decodes one progress link.
pub fn link_from_json(v: &JsonValue) -> (r: Option<Link>)
    ensures
        match r {
            Some(link) => spec_link_of(*v) == Some(link@),
            None => spec_link_of(*v) is None,
        },
{
    let fields = match v {
        JsonValue::Object(fields) => fields,
        _ => {
            return None;
        },
    };
    let content_type = match lookup_opt_str_field(fields, &String::from_str("contentType")) {
        Some(o) => crate::voice::cloned_opt(o),
        None => {
            return None;
        },
    };
    let description = match lookup_opt_str_field(fields, &String::from_str("description")) {
        Some(o) => crate::voice::cloned_opt(o),
        None => {
            return None;
        },
    };
    let href = match lookup_opt_str_field(fields, &String::from_str("href")) {
        Some(o) => crate::voice::cloned_opt(o),
        None => {
            return None;
        },
    };
    let method = match lookup_opt_str_field(fields, &String::from_str("method")) {
        Some(o) => crate::voice::cloned_opt(o),
        None => {
            return None;
        },
    };
    let rel = match lookup_opt_str_field(fields, &String::from_str("rel")) {
        Some(o) => crate::voice::cloned_opt(o),
        None => {
            return None;
        },
    };
    Some(Link { content_type, description, href, method, rel })
}

} // verus!

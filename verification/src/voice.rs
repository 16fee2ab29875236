//! Voices: fetching the catalogue, cloning, and deleting clones.
//!
//! The types mirror the records the remote service exchanges, and each
//! decoder states exactly which JSON shapes it accepts.  The dispatch
//! functions classify a completed response by status before decoding:
//! a success-class status decodes into the endpoint's record, any other
//! resolves into the error envelope.

use crate::error::{Error, ErrorModel};
use crate::json::{
    json_parse, lookup_field, lookup_opt_str_field, lookup_str_field, parse_json, spec_lookup,
    spec_opt_str_field, spec_str_field, JsonValue,
};
use crate::request::{spec_failure_of_body, spec_is_success_status, FormPart};
use vstd::prelude::*;

verus! {

/// URL path for fetching stock voices.
pub const VOICES_PATH: &'static str = "/voices";

/// URL path for fetching and deleting cloned voices.
pub const CLONED_VOICES_PATH: &'static str = "/cloned-voices/";

/// URL path for creating cloned voices.
pub const CLONED_VOICES_INSTANT_PATH: &'static str = "/cloned-voices/instant";

/// The mathematical shape of a stock voice record.
pub struct VoiceModel {
    pub id: Seq<char>,
    pub name: Seq<char>,
    pub sample: Option<Seq<char>>,
    pub accent: Option<Seq<char>>,
    pub age: Option<Seq<char>>,
    pub gender: Option<Seq<char>>,
    pub language: Option<Seq<char>>,
    pub lang_code: Option<Seq<char>>,
    pub loudness: Option<Seq<char>>,
    pub style: Option<Seq<char>>,
    pub tempo: Option<Seq<char>>,
    pub texture: Option<Seq<char>>,
}

/// A stock voice of the catalogue.
#[derive(Debug, Clone, PartialEq)]
pub struct Voice {
    pub id: String,
    pub name: String,
    pub sample: Option<String>,
    pub accent: Option<String>,
    pub age: Option<String>,
    pub gender: Option<String>,
    pub language: Option<String>,
    pub lang_code: Option<String>,
    pub loudness: Option<String>,
    pub style: Option<String>,
    pub tempo: Option<String>,
    pub texture: Option<String>,
}

impl View for Voice {
    type V = VoiceModel;

    open spec fn view(&self) -> VoiceModel {
        VoiceModel {
            id: self.id@,
            name: self.name@,
            sample: self.sample.deep_view(),
            accent: self.accent.deep_view(),
            age: self.age.deep_view(),
            gender: self.gender.deep_view(),
            language: self.language.deep_view(),
            lang_code: self.lang_code.deep_view(),
            loudness: self.loudness.deep_view(),
            style: self.style.deep_view(),
            tempo: self.tempo.deep_view(),
            texture: self.texture.deep_view(),
        }
    }
}

/// Which voice record a JSON value stands for, if any: an object with
/// string fields `id` and `name`, and text or `null` under each of the
/// optional descriptors.
pub open spec fn spec_voice_of(v: JsonValue) -> Option<VoiceModel> {
    match v {
        JsonValue::Object(fields) => {
            let fs = fields@;
            if spec_str_field(fs, "id"@) is Some && spec_str_field(fs, "name"@) is Some
                && spec_opt_str_field(fs, "sample"@) is Some && spec_opt_str_field(fs, "accent"@)
                is Some && spec_opt_str_field(fs, "age"@) is Some && spec_opt_str_field(
                fs,
                "gender"@,
            ) is Some && spec_opt_str_field(fs, "language"@) is Some && spec_opt_str_field(
                fs,
                "lang_code"@,
            ) is Some && spec_opt_str_field(fs, "loudness"@) is Some && spec_opt_str_field(
                fs,
                "style"@,
            ) is Some && spec_opt_str_field(fs, "tempo"@) is Some && spec_opt_str_field(
                fs,
                "texture"@,
            ) is Some {
                Some(
                    VoiceModel {
                        id: spec_str_field(fs, "id"@)->0,
                        name: spec_str_field(fs, "name"@)->0,
                        sample: spec_opt_str_field(fs, "sample"@)->0,
                        accent: spec_opt_str_field(fs, "accent"@)->0,
                        age: spec_opt_str_field(fs, "age"@)->0,
                        gender: spec_opt_str_field(fs, "gender"@)->0,
                        language: spec_opt_str_field(fs, "language"@)->0,
                        lang_code: spec_opt_str_field(fs, "lang_code"@)->0,
                        loudness: spec_opt_str_field(fs, "loudness"@)->0,
                        style: spec_opt_str_field(fs, "style"@)->0,
                        tempo: spec_opt_str_field(fs, "tempo"@)->0,
                        texture: spec_opt_str_field(fs, "texture"@)->0,
                    },
                )
            } else {
                None
            }
        },
        _ => None,
    }
}

/// Clones the text of an optional field already looked up.
pub(crate) fn cloned_opt(o: Option<&String>) -> (r: Option<String>)
    ensures
        r.deep_view() == (match o {
            Some(s) => Some(s@),
            None => None::<Seq<char>>,
        }),
{
    match o {
        Some(s) => Some(s.clone()),
        None => None,
    }
}

/// Decodes one stock voice record.
pub fn voice_from_json(v: &JsonValue) -> (r: Option<Voice>)
    ensures
        match r {
            Some(voice) => spec_voice_of(*v) == Some(voice@),
            None => spec_voice_of(*v) is None,
        },
{
    let fields = match v {
        JsonValue::Object(fields) => fields,
        _ => {
            return None;
        },
    };
    let id = match lookup_str_field(fields, &String::from_str("id")) {
        Some(s) => s.clone(),
        None => {
            return None;
        },
    };
    let name = match lookup_str_field(fields, &String::from_str("name")) {
        Some(s) => s.clone(),
        None => {
            return None;
        },
    };
    let sample = match lookup_opt_str_field(fields, &String::from_str("sample")) {
        Some(o) => cloned_opt(o),
        None => {
            return None;
        },
    };
    let accent = match lookup_opt_str_field(fields, &String::from_str("accent")) {
        Some(o) => cloned_opt(o),
        None => {
            return None;
        },
    };
    let age = match lookup_opt_str_field(fields, &String::from_str("age")) {
        Some(o) => cloned_opt(o),
        None => {
            return None;
        },
    };
    let gender = match lookup_opt_str_field(fields, &String::from_str("gender")) {
        Some(o) => cloned_opt(o),
        None => {
            return None;
        },
    };
    let language = match lookup_opt_str_field(fields, &String::from_str("language")) {
        Some(o) => cloned_opt(o),
        None => {
            return None;
        },
    };
    let lang_code = match lookup_opt_str_field(fields, &String::from_str("lang_code")) {
        Some(o) => cloned_opt(o),
        None => {
            return None;
        },
    };
    let loudness = match lookup_opt_str_field(fields, &String::from_str("loudness")) {
        Some(o) => cloned_opt(o),
        None => {
            return None;
        },
    };
    let style = match lookup_opt_str_field(fields, &String::from_str("style")) {
        Some(o) => cloned_opt(o),
        None => {
            return None;
        },
    };
    let tempo = match lookup_opt_str_field(fields, &String::from_str("tempo")) {
        Some(o) => cloned_opt(o),
        None => {
            return None;
        },
    };
    let texture = match lookup_opt_str_field(fields, &String::from_str("texture")) {
        Some(o) => cloned_opt(o),
        None => {
            return None;
        },
    };
    Some(
        Voice {
            id,
            name,
            sample,
            accent,
            age,
            gender,
            language,
            lang_code,
            loudness,
            style,
            tempo,
            texture,
        },
    )
}

/// The mathematical shape of a cloned voice record.
pub struct ClonedVoiceModel {
    pub id: Seq<char>,
    pub name: Seq<char>,
    pub voice_type: Option<Seq<char>>,
}

/// A cloned voice, as the remote service reports one.
#[derive(Debug, Clone, PartialEq)]
pub struct ClonedVoice {
    pub id: String,
    pub name: String,
    pub voice_type: Option<String>,
}

impl View for ClonedVoice {
    type V = ClonedVoiceModel;

    open spec fn view(&self) -> ClonedVoiceModel {
        ClonedVoiceModel {
            id: self.id@,
            name: self.name@,
            voice_type: self.voice_type.deep_view(),
        }
    }
}

/// Which cloned-voice record a JSON value stands for, if any: an object
/// with string fields `id` and `name`, and text or `null` under `type`.
pub open spec fn spec_cloned_voice_of(v: JsonValue) -> Option<ClonedVoiceModel> {
    match v {
        JsonValue::Object(fields) => {
            let fs = fields@;
            if spec_str_field(fs, "id"@) is Some && spec_str_field(fs, "name"@) is Some
                && spec_opt_str_field(fs, "type"@) is Some {
                Some(
                    ClonedVoiceModel {
                        id: spec_str_field(fs, "id"@)->0,
                        name: spec_str_field(fs, "name"@)->0,
                        voice_type: spec_opt_str_field(fs, "type"@)->0,
                    },
                )
            } else {
                None
            }
        },
        _ => None,
    }
}

/// Decodes one cloned-voice record.
pub fn cloned_voice_from_json(v: &JsonValue) -> (r: Option<ClonedVoice>)
    ensures
        match r {
            Some(voice) => spec_cloned_voice_of(*v) == Some(voice@),
            None => spec_cloned_voice_of(*v) is None,
        },
{
    let fields = match v {
        JsonValue::Object(fields) => fields,
        _ => {
            return None;
        },
    };
    let id = match lookup_str_field(fields, &String::from_str("id")) {
        Some(s) => s.clone(),
        None => {
            return None;
        },
    };
    let name = match lookup_str_field(fields, &String::from_str("name")) {
        Some(s) => s.clone(),
        None => {
            return None;
        },
    };
    let voice_type = match lookup_opt_str_field(fields, &String::from_str("type")) {
        Some(o) => cloned_opt(o),
        None => {
            return None;
        },
    };
    Some(ClonedVoice { id, name, voice_type })
}

/// Which list of voice records a sequence of JSON values stands for:
/// all of them, or nothing as soon as one fails the shape.
pub open spec fn spec_voices_of(items: Seq<JsonValue>) -> Option<Seq<VoiceModel>>
    decreases items.len(),
{
    if items.len() == 0 {
        Some(Seq::empty())
    } else {
        match (spec_voices_of(items.drop_last()), spec_voice_of(items.last())) {
            (Some(rest), Some(m)) => Some(rest.push(m)),
            _ => None,
        }
    }
}

/// One record failing its shape fails the whole list.
proof fn lemma_voices_fail(items: Seq<JsonValue>, i: int)
    requires
        0 <= i < items.len(),
        spec_voice_of(items[i]) is None,
    ensures
        spec_voices_of(items) is None,
    decreases items.len(),
{
    if i == items.len() - 1 {
        assert(items.last() == items[i]);
    } else {
        assert(items.drop_last()[i] == items[i]);
        lemma_voices_fail(items.drop_last(), i);
    }
}

/// Which list of voice records a JSON value stands for: an array whose
/// every element is a voice record.
pub open spec fn spec_voice_list_of(v: JsonValue) -> Option<Seq<VoiceModel>> {
    match v {
        JsonValue::Array(items) => spec_voices_of(items@),
        _ => None,
    }
}

/// Decodes a catalogue of stock voices.
pub fn voices_from_json(v: &JsonValue) -> (r: Option<Vec<Voice>>)
    ensures
        match r {
            Some(vs) => spec_voice_list_of(*v) == Some(vs@.map_values(|x: Voice| x@)),
            None => spec_voice_list_of(*v) is None,
        },
{
    let items = match v {
        JsonValue::Array(items) => items,
        _ => {
            return None;
        },
    };
    let mut out: Vec<Voice> = Vec::new();
    let n = items.len();
    let mut i: usize = 0;
    proof {
        assert(items@.take(0) =~= Seq::<JsonValue>::empty());
        assert(out@.map_values(|x: Voice| x@) =~= Seq::<VoiceModel>::empty());
    }
    while i < n
        invariant
            n == items@.len(),
            0 <= i <= n,
            spec_voice_list_of(*v) == spec_voices_of(items@),
            spec_voices_of(items@.take(i as int)) == Some(out@.map_values(|x: Voice| x@)),
        decreases n - i,
    {
        match voice_from_json(&items[i]) {
            Some(voice) => {
                out.push(voice);
                proof {
                    let taken = items@.take(i as int);
                    let taken1 = items@.take(i as int + 1);
                    assert(taken1.drop_last() =~= taken);
                    assert(taken1.last() == items@[i as int]);
                    assert(out@.map_values(|x: Voice| x@) =~= out@.drop_last().map_values(
                        |x: Voice| x@,
                    ).push(out@.last()@));
                }
            },
            None => {
                proof {
                    lemma_voices_fail(items@, i as int);
                }
                return None;
            },
        }
        i = i + 1;
    }
    proof {
        assert(items@.take(n as int) =~= items@);
    }
    Some(out)
}

/// Which list of cloned-voice records a sequence of JSON values stands
/// for: all of them, or nothing as soon as one fails the shape.
pub open spec fn spec_cloned_voices_of(items: Seq<JsonValue>) -> Option<Seq<ClonedVoiceModel>>
    decreases items.len(),
{
    if items.len() == 0 {
        Some(Seq::empty())
    } else {
        match (spec_cloned_voices_of(items.drop_last()), spec_cloned_voice_of(items.last())) {
            (Some(rest), Some(m)) => Some(rest.push(m)),
            _ => None,
        }
    }
}

/// One record failing its shape fails the whole list.
proof fn lemma_cloned_voices_fail(items: Seq<JsonValue>, i: int)
    requires
        0 <= i < items.len(),
        spec_cloned_voice_of(items[i]) is None,
    ensures
        spec_cloned_voices_of(items) is None,
    decreases items.len(),
{
    if i == items.len() - 1 {
        assert(items.last() == items[i]);
    } else {
        assert(items.drop_last()[i] == items[i]);
        lemma_cloned_voices_fail(items.drop_last(), i);
    }
}

/// Which list of cloned-voice records a JSON value stands for.
pub open spec fn spec_cloned_voice_list_of(v: JsonValue) -> Option<Seq<ClonedVoiceModel>> {
    match v {
        JsonValue::Array(items) => spec_cloned_voices_of(items@),
        _ => None,
    }
}

/// Decodes a list of cloned voices.
pub fn cloned_voices_from_json(v: &JsonValue) -> (r: Option<Vec<ClonedVoice>>)
    ensures
        match r {
            Some(vs) => spec_cloned_voice_list_of(*v) == Some(
                vs@.map_values(|x: ClonedVoice| x@),
            ),
            None => spec_cloned_voice_list_of(*v) is None,
        },
{
    let items = match v {
        JsonValue::Array(items) => items,
        _ => {
            return None;
        },
    };
    let mut out: Vec<ClonedVoice> = Vec::new();
    let n = items.len();
    let mut i: usize = 0;
    proof {
        assert(items@.take(0) =~= Seq::<JsonValue>::empty());
        assert(out@.map_values(|x: ClonedVoice| x@) =~= Seq::<ClonedVoiceModel>::empty());
    }
    while i < n
        invariant
            n == items@.len(),
            0 <= i <= n,
            spec_cloned_voice_list_of(*v) == spec_cloned_voices_of(items@),
            spec_cloned_voices_of(items@.take(i as int)) == Some(
                out@.map_values(|x: ClonedVoice| x@),
            ),
        decreases n - i,
    {
        match cloned_voice_from_json(&items[i]) {
            Some(voice) => {
                out.push(voice);
                proof {
                    let taken = items@.take(i as int);
                    let taken1 = items@.take(i as int + 1);
                    assert(taken1.drop_last() =~= taken);
                    assert(taken1.last() == items@[i as int]);
                    assert(out@.map_values(|x: ClonedVoice| x@) =~= out@.drop_last().map_values(
                        |x: ClonedVoice| x@,
                    ).push(out@.last()@));
                }
            },
            None => {
                proof {
                    lemma_cloned_voices_fail(items@, i as int);
                }
                return None;
            },
        }
        i = i + 1;
    }
    proof {
        assert(items@.take(n as int) =~= items@);
    }
    Some(out)
}

/// A request to clone a voice from a local sample file.
#[derive(Debug, Clone, PartialEq)]
pub struct CloneVoiceFileRequest {
    pub sample_file: String,
    pub voice_name: String,
    pub mime_type: String,
}

/// A request to clone a voice from a sample file behind a URL.
#[derive(Debug, Clone, PartialEq)]
pub struct CloneVoiceURLRequest {
    pub sample_file_url: String,
    pub voice_name: String,
}

impl CloneVoiceURLRequest {
    /// The JSON document this request is sent as.
    pub open spec fn spec_json_body(self) -> Seq<u8> {
        vstd::utf8::encode_utf8("{\"sample_file_url\":"@) + crate::json::spec_json_string(
            self.sample_file_url@,
        ) + vstd::utf8::encode_utf8(",\"voice_name\":"@) + crate::json::spec_json_string(
            self.voice_name@,
        ) + vstd::utf8::encode_utf8("}"@)
    }

    /// Frames the request as its JSON document.
    pub fn to_json_body(&self) -> (r: Vec<u8>)
        ensures
            r@ == self.spec_json_body(),
    {
        let mut out: Vec<u8> = Vec::new();
        crate::json::append_bytes(&mut out, "{\"sample_file_url\":".as_bytes());
        crate::json::append_json_string(&mut out, &self.sample_file_url);
        crate::json::append_bytes(&mut out, ",\"voice_name\":".as_bytes());
        crate::json::append_json_string(&mut out, &self.voice_name);
        crate::json::append_bytes(&mut out, "}".as_bytes());
        proof {
            assert(out@ =~= self.spec_json_body());
        }
        out
    }
}

/// A request to delete a cloned voice.
#[derive(Debug, Clone, PartialEq)]
pub struct DeleteClonedVoiceRequest {
    pub voice_id: String,
}

impl DeleteClonedVoiceRequest {
    /// The JSON document this request is sent as.
    pub open spec fn spec_json_body(self) -> Seq<u8> {
        vstd::utf8::encode_utf8("{\"voice_id\":"@) + crate::json::spec_json_string(self.voice_id@)
            + vstd::utf8::encode_utf8("}"@)
    }

    /// Frames the request as its JSON document.
    pub fn to_json_body(&self) -> (r: Vec<u8>)
        ensures
            r@ == self.spec_json_body(),
    {
        let mut out: Vec<u8> = Vec::new();
        crate::json::append_bytes(&mut out, "{\"voice_id\":".as_bytes());
        crate::json::append_json_string(&mut out, &self.voice_id);
        crate::json::append_bytes(&mut out, "}".as_bytes());
        proof {
            assert(out@ =~= self.spec_json_body());
        }
        out
    }
}

/// The multipart form a file-clone request is sent as: the voice name
/// as a plain-text part, and the sample file's bytes as a file part
/// under its own declared media type.
pub fn clone_voice_form(req: &CloneVoiceFileRequest, sample_bytes: Vec<u8>) -> (r: Vec<FormPart>)
    ensures
        r@.len() == 2,
        r@[0].name@ == "voice_name"@,
        r@[0].filename is None,
        r@[0].mime@ == "text/plain"@,
        r@[0].content@ == vstd::utf8::encode_utf8(req.voice_name@),
        r@[1].name@ == "sample_file"@,
        r@[1].filename matches Some(f) && f@ == req.sample_file@,
        r@[1].mime@ == req.mime_type@,
        r@[1].content@ == sample_bytes@,
{
    let mut parts: Vec<FormPart> = Vec::new();
    parts.push(
        FormPart {
            name: String::from_str("voice_name"),
            filename: None,
            mime: String::from_str("text/plain"),
            content: req.voice_name.as_str().as_bytes_vec(),
        },
    );
    parts.push(
        FormPart {
            name: String::from_str("sample_file"),
            filename: Some(req.sample_file.clone()),
            mime: req.mime_type.clone(),
            content: sample_bytes,
        },
    );
    parts
}

/// The mathematical shape of a voice-deletion report.
pub struct DeleteClonedVoiceRespModel {
    pub message: Seq<char>,
    pub deleted: ClonedVoiceModel,
}

/// The report the service answers a voice deletion with.
#[derive(Debug, Clone, PartialEq)]
pub struct DeleteClonedVoiceResp {
    pub message: String,
    pub deleted: ClonedVoice,
}

impl View for DeleteClonedVoiceResp {
    type V = DeleteClonedVoiceRespModel;

    open spec fn view(&self) -> DeleteClonedVoiceRespModel {
        DeleteClonedVoiceRespModel { message: self.message@, deleted: self.deleted@ }
    }
}

/// Which deletion report a JSON value stands for, if any: an object
/// with a string field `message` and a cloned-voice record under
/// `deleted`.
pub open spec fn spec_delete_resp_of(v: JsonValue) -> Option<DeleteClonedVoiceRespModel> {
    match v {
        JsonValue::Object(fields) => {
            let fs = fields@;
            match (spec_str_field(fs, "message"@), spec_lookup(fs, "deleted"@)) {
                (Some(m), Some(dv)) => match spec_cloned_voice_of(dv) {
                    Some(d) => Some(DeleteClonedVoiceRespModel { message: m, deleted: d }),
                    None => None,
                },
                _ => None,
            }
        },
        _ => None,
    }
}

/// Decodes a voice-deletion report.
pub fn delete_resp_from_json(v: &JsonValue) -> (r: Option<DeleteClonedVoiceResp>)
    ensures
        match r {
            Some(resp) => spec_delete_resp_of(*v) == Some(resp@),
            None => spec_delete_resp_of(*v) is None,
        },
{
    let fields = match v {
        JsonValue::Object(fields) => fields,
        _ => {
            return None;
        },
    };
    let message = match lookup_str_field(fields, &String::from_str("message")) {
        Some(s) => s.clone(),
        None => {
            return None;
        },
    };
    let deleted = match lookup_field(fields, &String::from_str("deleted")) {
        Some(dv) => match cloned_voice_from_json(dv) {
            Some(d) => d,
            None => {
                return None;
            },
        },
        None => {
            return None;
        },
    };
    Some(DeleteClonedVoiceResp { message, deleted })
}

/// Classifies and decodes the answer to a stock-voice listing: a
/// success-class status must carry an array of voice records, any
/// other status resolves into the error envelope.
pub fn decode_stock_voices_response(status: u16, body: &Vec<u8>) -> (r: Result<Vec<Voice>, Error>)
    ensures
        spec_is_success_status(status) ==> (match json_parse(body@) {
            Some(v) => match spec_voice_list_of(v) {
                Some(ms) => r matches Ok(voices) && voices@.map_values(|x: Voice| x@) == ms,
                None => r matches Err(e) && e@ == ErrorModel::DecodeError(
                    "unexpected response body"@,
                ),
            },
            None => r matches Err(e) && e@ == ErrorModel::DecodeError(
                "invalid JSON in response body"@,
            ),
        }),
        !spec_is_success_status(status) ==> (r matches Err(e) && e@ == spec_failure_of_body(
            body@,
        )),
{
    if !crate::request::is_success_status(status) {
        return Err(crate::request::decode_error_body(body));
    }
    match parse_json(body) {
        Some(v) => match voices_from_json(&v) {
            Some(voices) => Ok(voices),
            None => Err(Error::DecodeError(String::from_str("unexpected response body"))),
        },
        None => Err(Error::DecodeError(String::from_str("invalid JSON in response body"))),
    }
}

/// Classifies and decodes the answer to a cloned-voice listing.
pub fn decode_cloned_voices_response(status: u16, body: &Vec<u8>) -> (r: Result<
    Vec<ClonedVoice>,
    Error,
>)
    ensures
        spec_is_success_status(status) ==> (match json_parse(body@) {
            Some(v) => match spec_cloned_voice_list_of(v) {
                Some(ms) => r matches Ok(voices) && voices@.map_values(|x: ClonedVoice| x@) == ms,
                None => r matches Err(e) && e@ == ErrorModel::DecodeError(
                    "unexpected response body"@,
                ),
            },
            None => r matches Err(e) && e@ == ErrorModel::DecodeError(
                "invalid JSON in response body"@,
            ),
        }),
        !spec_is_success_status(status) ==> (r matches Err(e) && e@ == spec_failure_of_body(
            body@,
        )),
{
    if !crate::request::is_success_status(status) {
        return Err(crate::request::decode_error_body(body));
    }
    match parse_json(body) {
        Some(v) => match cloned_voices_from_json(&v) {
            Some(voices) => Ok(voices),
            None => Err(Error::DecodeError(String::from_str("unexpected response body"))),
        },
        None => Err(Error::DecodeError(String::from_str("invalid JSON in response body"))),
    }
}

/// Classifies and decodes the answer to a voice-cloning call: a
/// success-class status must carry one cloned-voice record.
pub fn decode_cloned_voice_response(status: u16, body: &Vec<u8>) -> (r: Result<ClonedVoice, Error>)
    ensures
        spec_is_success_status(status) ==> (match json_parse(body@) {
            Some(v) => match spec_cloned_voice_of(v) {
                Some(m) => r matches Ok(voice) && voice@ == m,
                None => r matches Err(e) && e@ == ErrorModel::DecodeError(
                    "unexpected response body"@,
                ),
            },
            None => r matches Err(e) && e@ == ErrorModel::DecodeError(
                "invalid JSON in response body"@,
            ),
        }),
        !spec_is_success_status(status) ==> (r matches Err(e) && e@ == spec_failure_of_body(
            body@,
        )),
{
    if !crate::request::is_success_status(status) {
        return Err(crate::request::decode_error_body(body));
    }
    match parse_json(body) {
        Some(v) => match cloned_voice_from_json(&v) {
            Some(voice) => Ok(voice),
            None => Err(Error::DecodeError(String::from_str("unexpected response body"))),
        },
        None => Err(Error::DecodeError(String::from_str("invalid JSON in response body"))),
    }
}

/// Classifies and decodes the answer to a voice deletion.
pub fn decode_delete_voice_response(status: u16, body: &Vec<u8>) -> (r: Result<
    DeleteClonedVoiceResp,
    Error,
>)
    ensures
        spec_is_success_status(status) ==> (match json_parse(body@) {
            Some(v) => match spec_delete_resp_of(v) {
                Some(m) => r matches Ok(resp) && resp@ == m,
                None => r matches Err(e) && e@ == ErrorModel::DecodeError(
                    "unexpected response body"@,
                ),
            },
            None => r matches Err(e) && e@ == ErrorModel::DecodeError(
                "invalid JSON in response body"@,
            ),
        }),
        !spec_is_success_status(status) ==> (r matches Err(e) && e@ == spec_failure_of_body(
            body@,
        )),
{
    if !crate::request::is_success_status(status) {
        return Err(crate::request::decode_error_body(body));
    }
    match parse_json(body) {
        Some(v) => match delete_resp_from_json(&v) {
            Some(resp) => Ok(resp),
            None => Err(Error::DecodeError(String::from_str("unexpected response body"))),
        },
        None => Err(Error::DecodeError(String::from_str("invalid JSON in response body"))),
    }
}

} // verus!

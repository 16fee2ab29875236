//! Dispatch classification and the per-endpoint decoders.

use playht_rs::error::{APIError, Error};
use playht_rs::json::JsonValue;
use playht_rs::request::{classify_response, is_success_status};
use playht_rs::stream::decode_stream_url_response;
use playht_rs::voice::{
    cloned_voice_from_json, decode_cloned_voice_response, decode_delete_voice_response,
    decode_stock_voices_response, voice_from_json, voices_from_json,
};

#[test]
fn only_the_2xx_class_is_success() {
    assert!(!is_success_status(199));
    assert!(is_success_status(200));
    assert!(is_success_status(201));
    assert!(is_success_status(299));
    assert!(!is_success_status(300));
    assert!(!is_success_status(404));
    assert!(!is_success_status(500));
}

#[test]
fn created_with_a_valid_body_is_success() {
    let body: Vec<u8> = b"{\"id\":\"v1\",\"name\":\"alice\",\"type\":\"instant\"}".to_vec();
    let voice = decode_cloned_voice_response(201, &body).unwrap();
    assert_eq!(voice.id, "v1");
    assert_eq!(voice.name, "alice");
    assert_eq!(voice.voice_type.as_deref(), Some("instant"));
}

#[test]
fn too_many_requests_with_a_bare_string_body_is_a_rate_limit() {
    let body: Vec<u8> = b"\"rate limit exceeded\"".to_vec();
    let e = decode_cloned_voice_response(429, &body).unwrap_err();
    assert_eq!(
        e,
        Error::APIError(APIError::RateLimit("rate limit exceeded".to_string()))
    );
}

#[test]
fn classification_happens_before_any_success_decoding() {
    let body: Vec<u8> = b"\"rate limit exceeded\"".to_vec();
    let e = classify_response(429, &body).unwrap_err();
    assert_eq!(
        e,
        Error::APIError(APIError::RateLimit("rate limit exceeded".to_string()))
    );
    assert!(classify_response(200, &body).is_ok());
}

#[test]
fn internal_error_body_on_a_server_failure() {
    let body: Vec<u8> = b"{\"message\":\"boom\",\"error\":\"internal\"}".to_vec();
    let e = decode_stock_voices_response(500, &body).unwrap_err();
    assert_eq!(
        e,
        Error::APIError(APIError::Internal {
            message: "boom".to_string(),
            error: "internal".to_string(),
        })
    );
}

#[test]
fn stock_voice_listing_decodes_every_record() {
    let body: Vec<u8> =
        b"[{\"id\":\"v1\",\"name\":\"alice\",\"accent\":\"british\",\"age\":null},{\"id\":\"v2\",\"name\":\"bob\"}]"
            .to_vec();
    let voices = decode_stock_voices_response(200, &body).unwrap();
    assert_eq!(voices.len(), 2);
    assert_eq!(voices[0].id, "v1");
    assert_eq!(voices[0].accent.as_deref(), Some("british"));
    assert_eq!(voices[0].age, None);
    assert_eq!(voices[1].name, "bob");
}

#[test]
fn success_with_the_wrong_shape_is_a_decode_error() {
    let body: Vec<u8> = b"{\"id\":\"v1\"}".to_vec();
    let e = decode_stock_voices_response(200, &body).unwrap_err();
    assert_eq!(e, Error::DecodeError("unexpected response body".to_string()));
}

#[test]
fn success_with_a_non_json_body_is_a_decode_error() {
    let body: Vec<u8> = b"<html>".to_vec();
    let e = decode_cloned_voice_response(200, &body).unwrap_err();
    assert_eq!(
        e,
        Error::DecodeError("invalid JSON in response body".to_string())
    );
}

#[test]
fn deletion_report_carries_the_deleted_voice() {
    let body: Vec<u8> =
        b"{\"message\":\"deleted\",\"deleted\":{\"id\":\"v1\",\"name\":\"alice\"}}".to_vec();
    let resp = decode_delete_voice_response(200, &body).unwrap();
    assert_eq!(resp.message, "deleted");
    assert_eq!(resp.deleted.id, "v1");
    assert_eq!(resp.deleted.voice_type, None);
}

#[test]
fn stream_url_record_decodes_whole() {
    let body: Vec<u8> = b"{\"href\":\"https://example.test/a\",\"method\":\"GET\",\"contentType\":\"audio/mpeg\",\"rel\":\"stream\",\"description\":\"audio\"}".to_vec();
    let u = decode_stream_url_response(200, &body).unwrap();
    assert_eq!(u.href, "https://example.test/a");
    assert_eq!(u.method, "GET");
    assert_eq!(u.content_type, "audio/mpeg");
    assert_eq!(u.rel, "stream");
    assert_eq!(u.description, "audio");
}

#[test]
fn stream_url_record_missing_a_field_fails() {
    let body: Vec<u8> = b"{\"href\":\"https://example.test/a\"}".to_vec();
    let e = decode_stream_url_response(200, &body).unwrap_err();
    assert_eq!(e, Error::DecodeError("unexpected response body".to_string()));
}

#[test]
fn a_voice_record_with_a_numeric_descriptor_fails_the_shape() {
    let v = JsonValue::Object(vec![
        ("id".to_string(), JsonValue::Text("v1".to_string())),
        ("name".to_string(), JsonValue::Text("alice".to_string())),
        ("age".to_string(), JsonValue::Number),
    ]);
    assert!(voice_from_json(&v).is_none());
}

#[test]
fn a_voice_list_with_one_bad_record_fails_whole() {
    let good = JsonValue::Object(vec![
        ("id".to_string(), JsonValue::Text("v1".to_string())),
        ("name".to_string(), JsonValue::Text("alice".to_string())),
    ]);
    let bad = JsonValue::Object(vec![("id".to_string(), JsonValue::Text("v2".to_string()))]);
    let list = JsonValue::Array(vec![good, bad]);
    assert!(voices_from_json(&list).is_none());
}

#[test]
fn a_cloned_voice_record_ignores_unknown_fields() {
    let v = JsonValue::Object(vec![
        ("id".to_string(), JsonValue::Text("v1".to_string())),
        ("name".to_string(), JsonValue::Text("alice".to_string())),
        ("extra".to_string(), JsonValue::Number),
    ]);
    let voice = cloned_voice_from_json(&v).unwrap();
    assert_eq!(voice.id, "v1");
    assert_eq!(voice.voice_type, None);
}

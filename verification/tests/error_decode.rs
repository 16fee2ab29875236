//! The error envelope decoder, shape by shape.

use playht_rs::error::{decode_api_error, APIError, Error};
use playht_rs::json::JsonValue;
use playht_rs::request::decode_error_body;

fn obj(fields: Vec<(&str, JsonValue)>) -> JsonValue {
    JsonValue::Object(
        fields
            .into_iter()
            .map(|(k, v)| (k.to_string(), v))
            .collect(),
    )
}

fn text(s: &str) -> JsonValue {
    JsonValue::Text(s.to_string())
}

#[test]
fn generic_error_shape_decodes_to_gen() {
    let v = obj(vec![
        ("error_message", text("bad voice")),
        ("error_id", text("E42")),
    ]);
    let r = decode_api_error(&v).unwrap();
    assert_eq!(
        r,
        APIError::Gen {
            error_message: "bad voice".to_string(),
            error_id: "E42".to_string(),
        }
    );
}

#[test]
fn internal_error_shape_decodes_to_internal() {
    let v = obj(vec![
        ("message", text("boom")),
        ("error", text("internal")),
    ]);
    let r = decode_api_error(&v).unwrap();
    assert_eq!(
        r,
        APIError::Internal {
            message: "boom".to_string(),
            error: "internal".to_string(),
        }
    );
}

#[test]
fn generic_shape_wins_over_internal_shape() {
    let v = obj(vec![
        ("message", text("boom")),
        ("error", text("internal")),
        ("error_message", text("bad voice")),
        ("error_id", text("E42")),
    ]);
    let r = decode_api_error(&v).unwrap();
    assert_eq!(
        r,
        APIError::Gen {
            error_message: "bad voice".to_string(),
            error_id: "E42".to_string(),
        }
    );
}

#[test]
fn a_lone_error_message_field_falls_through_to_internal() {
    let v = obj(vec![
        ("error_message", text("bad voice")),
        ("message", text("boom")),
        ("error", text("internal")),
    ]);
    let r = decode_api_error(&v).unwrap();
    assert_eq!(
        r,
        APIError::Internal {
            message: "boom".to_string(),
            error: "internal".to_string(),
        }
    );
}

#[test]
fn an_empty_bare_string_is_still_a_rate_limit() {
    let r = decode_api_error(&text("")).unwrap();
    assert_eq!(r, APIError::RateLimit(String::new()));
}

#[test]
fn bare_string_decodes_to_rate_limit() {
    let v = text("rate limit exceeded");
    let r = decode_api_error(&v).unwrap();
    assert_eq!(r, APIError::RateLimit("rate limit exceeded".to_string()));
}

#[test]
fn string_resembling_an_object_is_still_rate_limit() {
    let v = text("{\"error_message\":\"x\",\"error_id\":\"y\"}");
    let r = decode_api_error(&v).unwrap();
    assert_eq!(
        r,
        APIError::RateLimit("{\"error_message\":\"x\",\"error_id\":\"y\"}".to_string())
    );
}

#[test]
fn empty_object_fails_to_decode() {
    let v = obj(vec![]);
    let e = decode_api_error(&v).unwrap_err();
    assert_eq!(
        e,
        Error::DecodeError("Unknown API error format".to_string())
    );
}

#[test]
fn number_fails_to_decode() {
    let e = decode_api_error(&JsonValue::Number).unwrap_err();
    assert_eq!(
        e,
        Error::DecodeError("Unknown API error format".to_string())
    );
}

#[test]
fn object_with_non_string_fields_fails_to_decode() {
    let v = obj(vec![
        ("error_message", JsonValue::Number),
        ("error_id", text("E42")),
    ]);
    let e = decode_api_error(&v).unwrap_err();
    assert_eq!(
        e,
        Error::DecodeError("Unknown API error format".to_string())
    );
}

#[test]
fn error_body_bytes_decode_through_the_parser() {
    let body: Vec<u8> = b"{\"error_message\":\"bad voice\",\"error_id\":\"E42\"}".to_vec();
    let e = decode_error_body(&body);
    assert_eq!(
        e,
        Error::APIError(APIError::Gen {
            error_message: "bad voice".to_string(),
            error_id: "E42".to_string(),
        })
    );
}

#[test]
fn error_body_with_unknown_shape_is_a_decode_error() {
    let body: Vec<u8> = b"42".to_vec();
    let e = decode_error_body(&body);
    assert_eq!(
        e,
        Error::DecodeError("Unknown API error format".to_string())
    );
}

#[test]
fn error_body_that_is_not_json_is_a_decode_error() {
    let body: Vec<u8> = b"not json at all".to_vec();
    let e = decode_error_body(&body);
    assert_eq!(
        e,
        Error::DecodeError("invalid JSON in response body".to_string())
    );
}

#[test]
fn error_messages_read_like_display_output() {
    let gen = APIError::Gen {
        error_message: "bad voice".to_string(),
        error_id: "E42".to_string(),
    };
    assert_eq!(gen.to_message(), "Generic API error: bad voice (E42)");
    let internal = APIError::Internal {
        message: "boom".to_string(),
        error: "internal".to_string(),
    };
    assert_eq!(internal.to_message(), "Internal API error: boom (internal)");
    let rate = APIError::RateLimit("slow down".to_string());
    assert_eq!(rate.to_message(), "Rate limit exceeded: slow down");
    let e = Error::ConfigError("url is not set".to_string());
    assert_eq!(e.to_message(), "Client build error: url is not set");
    let e = Error::APIError(rate);
    assert_eq!(e.to_message(), "API error: Rate limit exceeded: slow down");
}

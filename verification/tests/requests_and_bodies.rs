//! Request assembly, body framing, and the wire spellings.

use playht_rs::config::ClientBuilder;
use playht_rs::headers::Headers;
use playht_rs::job::{link_from_json, tts_job_path};
use playht_rs::json::JsonValue;
use playht_rs::request::{build_request, Method, RequestBody};
use playht_rs::tts::{Emotion, OutputFormat, Quality, VoiceEngine};
use playht_rs::voice::{clone_voice_form, CloneVoiceFileRequest, CloneVoiceURLRequest, DeleteClonedVoiceRequest};

#[test]
fn a_request_joins_the_base_url_and_the_path() {
    let config = ClientBuilder::new().build().unwrap();
    let overrides = Headers::empty();
    let req = build_request(&config, Method::Get, "/voices", &overrides, RequestBody::Empty);
    assert_eq!(req.url, "https://api.play.ht/api/v2/voices");
    assert_eq!(req.method, Method::Get);
    assert!(matches!(req.body, RequestBody::Empty));
}

#[test]
fn per_call_headers_override_the_configuration() {
    let config = ClientBuilder::new()
        .header("Accept", "application/json")
        .unwrap()
        .build()
        .unwrap();
    let mut overrides = Headers::empty();
    overrides.insert("accept", "text/event-stream").unwrap();
    let req = build_request(&config, Method::Post, "/tts", &overrides, RequestBody::Empty);
    assert_eq!(req.headers.get("Accept").unwrap(), "text/event-stream");
    assert_eq!(
        req.headers.get("user-agent").unwrap(),
        "milosgajdos/playht_rs"
    );
}

#[test]
fn job_paths_carry_the_identifier() {
    assert_eq!(tts_job_path("job-1"), "/tts/job-1");
}

#[test]
fn clone_url_request_frames_its_json_body() {
    let req = CloneVoiceURLRequest {
        sample_file_url: "https://example.test/s.mp3".to_string(),
        voice_name: "alice".to_string(),
    };
    let body = req.to_json_body();
    assert_eq!(
        body,
        b"{\"sample_file_url\":\"https://example.test/s.mp3\",\"voice_name\":\"alice\"}".to_vec()
    );
}

#[test]
fn delete_request_frames_its_json_body() {
    let req = DeleteClonedVoiceRequest {
        voice_id: "v1".to_string(),
    };
    assert_eq!(req.to_json_body(), b"{\"voice_id\":\"v1\"}".to_vec());
}

#[test]
fn json_bodies_escape_like_the_reference_serializer() {
    let req = DeleteClonedVoiceRequest {
        voice_id: "a\"b\\c\nd\te\u{8}f\u{1f}g".to_string(),
    };
    let mine = req.to_json_body();
    let reference = format!(
        "{{\"voice_id\":{}}}",
        serde_json::to_string("a\"b\\c\nd\te\u{8}f\u{1f}g").unwrap()
    );
    assert_eq!(mine, reference.into_bytes());
}

#[test]
fn framed_bodies_parse_back_to_the_same_values() {
    let req = CloneVoiceURLRequest {
        sample_file_url: "https://example.test/s.mp3".to_string(),
        voice_name: "ali\"ce\n".to_string(),
    };
    let parsed: serde_json::Value = serde_json::from_slice(&req.to_json_body()).unwrap();
    assert_eq!(
        parsed.get("sample_file_url").and_then(|v| v.as_str()),
        Some("https://example.test/s.mp3")
    );
    assert_eq!(
        parsed.get("voice_name").and_then(|v| v.as_str()),
        Some("ali\"ce\n")
    );
}

#[test]
fn the_clone_form_holds_the_name_and_the_sample() {
    let req = CloneVoiceFileRequest {
        sample_file: "sample.mp3".to_string(),
        voice_name: "alice".to_string(),
        mime_type: "audio/mpeg".to_string(),
    };
    let parts = clone_voice_form(&req, vec![1u8, 2, 3]);
    assert_eq!(parts.len(), 2);
    assert_eq!(parts[0].name, "voice_name");
    assert_eq!(parts[0].mime, "text/plain");
    assert_eq!(parts[0].content, b"alice".to_vec());
    assert_eq!(parts[0].filename, None);
    assert_eq!(parts[1].name, "sample_file");
    assert_eq!(parts[1].filename.as_deref(), Some("sample.mp3"));
    assert_eq!(parts[1].mime, "audio/mpeg");
    assert_eq!(parts[1].content, vec![1u8, 2, 3]);
}

#[test]
fn the_wire_spellings_match_the_service() {
    assert_eq!(VoiceEngine::default(), VoiceEngine::PlayHTV2);
    assert_eq!(VoiceEngine::PlayHTV1.wire_name(), "PlayHT1.0");
    assert_eq!(VoiceEngine::PlayHTV2.wire_name(), "PlayHT2.0");
    assert_eq!(VoiceEngine::PlayHTV2Turbo.wire_name(), "PlayHT2.0-turbo");
    assert_eq!(OutputFormat::default(), OutputFormat::Mp3);
    assert_eq!(OutputFormat::Flac.wire_name(), "flac");
    assert_eq!(Quality::default(), Quality::Draft);
    assert_eq!(Quality::Premium.wire_name(), "premium");
    assert_eq!(Emotion::default(), Emotion::FemaleHappy);
    assert_eq!(Emotion::MaleSurprised.wire_name(), "male_surprised");
}

#[test]
fn a_progress_link_decodes_field_by_field() {
    let v = JsonValue::Object(vec![
        (
            "contentType".to_string(),
            JsonValue::Text("audio/mpeg".to_string()),
        ),
        ("href".to_string(), JsonValue::Text("https://example.test/a".to_string())),
        ("rel".to_string(), JsonValue::Null),
    ]);
    let link = link_from_json(&v).unwrap();
    assert_eq!(link.content_type.as_deref(), Some("audio/mpeg"));
    assert_eq!(link.href.as_deref(), Some("https://example.test/a"));
    assert_eq!(link.rel, None);
    assert_eq!(link.method, None);
    assert_eq!(link.description, None);
}

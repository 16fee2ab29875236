//! The header table and the configuration builder.

use playht_rs::config::{ClientBuilder, ClientConfig, BASE_URL, CLIENT_USER_AGENT, V2_PATH};
use playht_rs::error::Error;
use playht_rs::headers::Headers;

#[test]
fn header_names_are_case_insensitive_and_last_write_wins() {
    let mut h = Headers::empty();
    h.insert("Content-Type", "application/json").unwrap();
    h.insert("content-type", "text/event-stream").unwrap();
    assert_eq!(h.len(), 1);
    assert_eq!(h.get("CONTENT-TYPE").unwrap(), "text/event-stream");
}

#[test]
fn distinct_names_keep_distinct_entries() {
    let mut h = Headers::empty();
    h.insert("Accept", "application/json").unwrap();
    h.insert("Content-Type", "application/json").unwrap();
    assert_eq!(h.len(), 2);
    assert_eq!(h.get("accept").unwrap(), "application/json");
    assert_eq!(h.get("content-type").unwrap(), "application/json");
}

#[test]
fn missing_name_is_not_found() {
    let h = Headers::empty();
    assert!(h.get("Accept").is_none());
}

#[test]
fn header_name_with_a_space_is_rejected() {
    let mut h = Headers::empty();
    let e = h.insert("bad name", "x").unwrap_err();
    assert_eq!(e, Error::HeaderError("invalid header name".to_string()));
    assert_eq!(h.len(), 0);
}

#[test]
fn empty_header_name_is_rejected() {
    let mut h = Headers::empty();
    let e = h.insert("", "x").unwrap_err();
    assert_eq!(e, Error::HeaderError("invalid header name".to_string()));
}

#[test]
fn header_value_with_a_newline_is_rejected() {
    let mut h = Headers::empty();
    let e = h.insert("Accept", "a\nb").unwrap_err();
    assert_eq!(e, Error::HeaderError("invalid header value".to_string()));
    assert_eq!(h.len(), 0);
}

#[test]
fn merge_prefers_the_override_on_a_collision() {
    let mut base = Headers::empty();
    base.insert("Content-Type", "application/json").unwrap();
    base.insert("Accept", "application/json").unwrap();
    let mut overrides = Headers::empty();
    overrides.insert("content-type", "audio/mpeg").unwrap();
    let merged = base.merged_with(&overrides);
    assert_eq!(merged.len(), 2);
    assert_eq!(merged.get("Content-Type").unwrap(), "audio/mpeg");
    assert_eq!(merged.get("Accept").unwrap(), "application/json");
}

#[test]
fn builder_without_an_endpoint_fails_to_build() {
    let e = ClientBuilder::empty().build().unwrap_err();
    assert_eq!(e, Error::ConfigError("url is not set".to_string()));
}

#[test]
fn default_builder_builds_the_versioned_endpoint() {
    let config = ClientBuilder::new().build().unwrap();
    assert_eq!(config.url, format!("{}{}", BASE_URL, V2_PATH));
    assert_eq!(config.headers.get("user-agent").unwrap(), CLIENT_USER_AGENT);
    assert!(config.headers.get("authorization").is_none());
    assert!(config.headers.get("x-user-id").is_none());
}

#[test]
fn credentials_populate_the_default_headers() {
    let b = ClientBuilder::with_credentials(
        Some("SECRET-REDACTED".to_string()),
        Some("user-1".to_string()),
    );
    let config = b.build().unwrap();
    assert_eq!(
        config.headers.get("Authorization").unwrap(),
        "SECRET-REDACTED"
    );
    assert_eq!(config.headers.get("X-USER-ID").unwrap(), "user-1");
    assert_eq!(config.headers.get("User-Agent").unwrap(), CLIENT_USER_AGENT);
    assert_eq!(config.headers.len(), 3);
}

#[test]
fn absent_credentials_are_not_an_error() {
    let config = ClientBuilder::with_credentials(None, None).build().unwrap();
    assert_eq!(config.headers.len(), 1);
    assert!(config.headers.get("authorization").is_none());
}

#[test]
fn appending_a_path_extends_the_endpoint() {
    let b = ClientBuilder::new().path("/tts").unwrap();
    let config = b.build().unwrap();
    assert_eq!(config.url, "https://api.play.ht/api/v2/tts");
}

#[test]
fn extra_headers_survive_the_build() {
    let b = ClientBuilder::new().header("Accept", "audio/mpeg").unwrap();
    let config = b.build().unwrap();
    assert_eq!(config.headers.get("accept").unwrap(), "audio/mpeg");
}

#[test]
fn builder_header_rejects_illegal_names() {
    let e = ClientBuilder::new().header("no good", "x").unwrap_err();
    assert_eq!(e, Error::HeaderError("invalid header name".to_string()));
}

#[test]
fn appending_a_path_normalizes_the_endpoint() {
    let b = ClientBuilder {
        url: Some("HTTPS://API.PLAY.HT/api/v2".to_string()),
        headers: Headers::empty(),
    };
    let config = b.path("/tts").unwrap().build().unwrap();
    assert_eq!(config.url, "https://api.play.ht/api/v2/tts");
}

#[test]
fn appending_to_a_senseless_endpoint_is_a_url_error() {
    let b = ClientBuilder {
        url: Some("nonsense".to_string()),
        headers: Headers::empty(),
    };
    let e = b.path("/tts").unwrap_err();
    assert_eq!(e, Error::UrlError("invalid URL".to_string()));
}

#[test]
fn remote_address_names_the_https_port() {
    let config = ClientBuilder::new().build().unwrap();
    assert_eq!(config.remote_address().unwrap(), "api.play.ht:443");
}

#[test]
fn remote_address_of_a_hostless_url_is_none() {
    let config = ClientConfig {
        url: "not a url".to_string(),
        headers: Headers::empty(),
    };
    assert!(config.remote_address().is_none());
}

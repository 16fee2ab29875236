//! Client configuration and its builder.
//!
//! A configuration is assembled once — base endpoint, static headers,
//! optional credentials — and is immutable thereafter; every request
//! issued through a client reads it and nothing writes it.  Validation
//! of the endpoint happens when a path is appended and the presence of
//! an endpoint is checked once, at the `build` boundary.

use crate::error::{Error, ErrorModel};
use crate::headers::{spec_insert, valid_header_value, Headers};
use vstd::prelude::*;

verus! {

/// Base URL of the remote service's API.
pub const BASE_URL: &'static str = "https://api.play.ht/api";

/// URL path of the API version every client speaks.
pub const V2_PATH: &'static str = "/v2";

/// Name of the header carrying the caller's user identifier.
pub const USER_ID_HEADER: &'static str = "X-USER-ID";

/// The user agent this library announces.
pub const CLIENT_USER_AGENT: &'static str = "milosgajdos/playht_rs";

/// What `url::Url::parse` makes of a string: the normalized
/// serialization of the URL, or nothing when the string does not parse
/// as an absolute URL.  The result depends on the string alone.
pub uninterp spec fn url_parse(s: Seq<char>) -> Option<Seq<char>>;

/// The host part `url::Url::host_str` reads out of a URL string, if the
/// string parses and has one.  The result depends on the string alone.
pub uninterp spec fn url_host(s: Seq<char>) -> Option<Seq<char>>;

/// Relies on `reqwest::Url::parse`: accepts exactly the absolute URLs
/// and returns the normalized serialization, a pure function of the
/// string named `url_parse`.
#[verifier::external_body]
fn parse_absolute_url(s: &String) -> (r: Option<String>)
    ensures
        match r {
            Some(u) => url_parse(s@) == Some(u@),
            None => url_parse(s@) is None,
        },
{
    match reqwest::Url::parse(s.as_str()) {
        Ok(u) => Some(u.as_str().to_string()),
        Err(_) => None,
    }
}

/// Relies on `reqwest::Url::parse` and `Url::host_str`: reads the host
/// out of a URL string, a pure function of the string named `url_host`.
#[verifier::external_body]
fn host_of_url(s: &String) -> (r: Option<String>)
    ensures
        match r {
            Some(h) => url_host(s@) == Some(h@),
            None => url_host(s@) is None,
        },
{
    match reqwest::Url::parse(s.as_str()) {
        Ok(u) => u.host_str().map(|h| h.to_string()),
        Err(_) => None,
    }
}

/// An immutable client configuration: the finalized endpoint and the
/// static headers every request carries.
#[derive(Debug)]
pub struct ClientConfig {
    pub url: String,
    pub headers: Headers,
}

impl ClientConfig {
    /// The remote host address, written `host:port`, when the endpoint
    /// names a host.
    pub fn remote_address(&self) -> (r: Option<String>)
        ensures
            match r {
                Some(a) => url_host(self.url@) matches Some(h) && a@ == h + ":443"@,
                None => url_host(self.url@) is None,
            },
    {
        match host_of_url(&self.url) {
            Some(h) => Some(h.concat(":443")),
            None => None,
        }
    }
}

/// The headers a default-built configuration starts from: credentials
/// when they were handed in, and always the library's user agent.
pub open spec fn spec_default_headers(secret: Option<Seq<char>>, user: Option<Seq<char>>) -> Map<
    Seq<char>,
    Seq<char>,
> {
    let with_auth = match secret {
        Some(s) => spec_insert(Map::empty(), "Authorization"@, s),
        None => Map::<Seq<char>, Seq<char>>::empty(),
    };
    let with_user = match user {
        Some(u) => spec_insert(with_auth, USER_ID_HEADER@, u),
        None => with_auth,
    };
    spec_insert(with_user, "User-Agent"@, CLIENT_USER_AGENT@)
}

/// A configuration in progress: all parts optional, validated at the
/// `build` boundary.
#[derive(Debug)]
pub struct ClientBuilder {
    pub url: Option<String>,
    pub headers: Headers,
}

impl ClientBuilder {
    /// A builder with nothing set: no endpoint, no headers.
    pub fn empty() -> (r: ClientBuilder)
        ensures
            r.url is None,
            r.headers@ == Map::<Seq<char>, Seq<char>>::empty(),
            r.headers.wf(),
    {
        ClientBuilder { url: None, headers: Headers::empty() }
    }

    /// A builder with the default endpoint and the default headers, and
    /// the given credentials when present; their absence is not an
    /// error, it leaves the configuration unauthenticated.
    pub fn with_credentials(secret_key: Option<String>, user_id: Option<String>) -> (r:
        ClientBuilder)
        requires
            secret_key matches Some(s) ==> valid_header_value(s@),
            user_id matches Some(u) ==> valid_header_value(u@),
        ensures
            r.headers.wf(),
            r.headers@ == spec_default_headers(secret_key.deep_view(), user_id.deep_view()),
            match r.url {
                Some(u) => url_parse(BASE_URL@ + V2_PATH@) == Some(u@),
                None => url_parse(BASE_URL@ + V2_PATH@) is None,
            },
    {
        let mut headers = Headers::empty();
        match &secret_key {
            Some(s) => headers.insert_raw("Authorization", s.as_str()),
            None => (),
        }
        match &user_id {
            Some(u) => headers.insert_raw(USER_ID_HEADER, u.as_str()),
            None => (),
        }
        headers.insert_raw("User-Agent", CLIENT_USER_AGENT);
        let base = String::from_str(BASE_URL).concat(V2_PATH);
        let url = parse_absolute_url(&base);
        ClientBuilder { url, headers }
    }

    /// A builder with the default endpoint and the default headers, and
    /// no credentials.
    pub fn new() -> (r: ClientBuilder)
        ensures
            r.headers.wf(),
            r.headers@ == spec_default_headers(None, None),
            match r.url {
                Some(u) => url_parse(BASE_URL@ + V2_PATH@) == Some(u@),
                None => url_parse(BASE_URL@ + V2_PATH@) is None,
            },
    {
        ClientBuilder::with_credentials(None, None)
    }

    /// Sets one static header, overwriting case-insensitively.  An
    /// illegal name or value is rejected with a `HeaderError`.
    pub fn header(self, name: &str, value: &str) -> (r: Result<ClientBuilder, Error>)
        requires
            self.headers.wf(),
        ensures
            crate::headers::valid_header_name(name@) && valid_header_value(value@) ==> (
            r matches Ok(b) && b.url == self.url && b.headers.wf() && b.headers@ == spec_insert(
                self.headers@,
                name@,
                value@,
            )),
            !(crate::headers::valid_header_name(name@) && valid_header_value(value@)) ==> (
            r matches Err(e) && e matches Error::HeaderError(m)),
    {
        let ClientBuilder { url, mut headers } = self;
        match headers.insert(name, value) {
            Ok(()) => Ok(ClientBuilder { url, headers }),
            Err(e) => Err(e),
        }
    }

    /// Appends a path segment to the endpoint and re-validates: the
    /// concatenation must itself parse as an absolute URL.
    pub fn path(self, segment: &str) -> (r: Result<ClientBuilder, Error>)
        requires
            self.url is Some,
        ensures
            match url_parse(self.url->Some_0@ + segment@) {
                Some(u) => r matches Ok(b) && b.url matches Some(bu) && bu@ == u && b.headers
                    == self.headers,
                None => r matches Err(e) && e@ == ErrorModel::UrlError("invalid URL"@),
            },
    {
        let ClientBuilder { url, headers } = self;
        let joined = url.unwrap().concat(segment);
        match parse_absolute_url(&joined) {
            Some(u) => Ok(ClientBuilder { url: Some(u), headers }),
            None => Err(Error::UrlError(String::from_str("invalid URL"))),
        }
    }

    /// Finalizes the configuration.  Fails, and only fails, when no
    /// endpoint was ever established; it never panics and never hands
    /// out a configuration without an endpoint.
    pub fn build(self) -> (r: Result<ClientConfig, Error>)
        ensures
            match self.url {
                Some(u) => r matches Ok(c) && c.url == u && c.headers == self.headers,
                None => r matches Err(e) && e@ == ErrorModel::ConfigError("url is not set"@),
            },
    {
        let ClientBuilder { url, headers } = self;
        match url {
            Some(u) => Ok(ClientConfig { url: u, headers }),
            None => Err(Error::ConfigError(String::from_str("url is not set"))),
        }
    }
}

} // verus!

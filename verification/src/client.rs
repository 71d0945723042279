//! The recognition client's verified half: credentials, the resolved
//! endpoint, the content-type normalization policy, and the exact shape of
//! the outbound request. The network call itself is performed by the
//! surrounding application from the [`RecognitionRequest`] built here.

use vstd::prelude::*;
use vstd::string::StringExecFns;
use crate::error::ConfigError;

verus! {

/// The type and subtype of `s` parsed as a MIME type, lowercased by the
/// parser and with parameters dropped; `None` when `s` does not parse.
pub uninterp spec fn mime_parts(s: Seq<char>) -> Option<(Seq<char>, Seq<char>)>;

/// Relies on `str::parse::<mime::Mime>` together with `Mime::type_`,
/// `Mime::subtype` and `Name::as_str`: yields the type and the subtype of
/// the parsed MIME type (which the parser stores ASCII-lowercased),
/// parameters dropped; the result depends on the string alone.
#[verifier::external_body]
fn parse_mime_parts(s: &str) -> (r: Option<(String, String)>)
    ensures
        match r {
            Some(p) => mime_parts(s@) == Some((p.0@, p.1@)),
            None => mime_parts(s@) is None,
        },
{
    match s.parse::<mime::Mime>() {
        Ok(m) => Some((m.type_().as_str().to_string(), m.subtype().as_str().to_string())),
        Err(_) => None,
    }
}

/// The serialization of `s` parsed as an absolute URL; `None` when `s` does
/// not parse as one.
pub uninterp spec fn url_of(s: Seq<char>) -> Option<Seq<char>>;

/// Relies on `url::Url::parse` and `Url::as_str`: yields the serialization
/// of the parsed absolute URL; the result depends on the string alone.
#[verifier::external_body]
fn parse_url(s: &str) -> (r: Option<String>)
    ensures
        match r {
            Some(u) => url_of(s@) == Some(u@),
            None => url_of(s@) is None,
        },
{
    match url::Url::parse(s) {
        Ok(u) => Some(u.as_str().to_string()),
        Err(_) => None,
    }
}

/// Whether the declared content type is exactly the `audio` type with
/// subtype `vnd.wave`, parameters ignored; an unparseable string never
/// matches (fail-open).
pub open spec fn needs_wav_fix_spec(s: Seq<char>) -> bool {
    match mime_parts(s) {
        Some(p) => p.0 == "audio"@ && p.1 == "vnd.wave"@,
        None => false,
    }
}

/// The content type actually sent upstream: the fixed string `audio/wav`
/// when normalization is enabled and the declared type matches
/// `audio/vnd.wave`; otherwise the declared string unchanged.
pub open spec fn normalized_content_type(s: Seq<char>, fix_wav_type: bool) -> Seq<char> {
    if fix_wav_type && needs_wav_fix_spec(s) {
        "audio/wav"@
    } else {
        s
    }
}

/// The credentials of the external recognition service: the API key secret
/// and the base URL.
#[derive(Clone, Debug)]
pub struct Credentials {
    pub apikey: String,
    pub url: String,
}

/// An outbound recognition request, fully determined before any I/O: the
/// endpoint, HTTP Basic authentication, the normalized content type, and the
/// payload bytes verbatim.
pub struct RecognitionRequest {
    pub url: String,
    pub username: String,
    pub password: String,
    pub content_type: String,
    pub body: Vec<u8>,
}

/// The immutable, shareable state of the recognition client: credentials,
/// the resolved endpoint, and the normalization flag. Constructed once;
/// never mutated afterwards.
#[derive(Clone, Debug)]
pub struct ApiClient {
    pub credentials: Credentials,
    pub endpoint: String,
    pub fix_wav_type: bool,
}

impl ApiClient {
    /// Resolves the recognition endpoint by appending the fixed path to the
    /// configured base URL; a base URL under which that does not parse as an
    /// absolute URL is a configuration error, distinct from runtime errors.
    pub fn new(credentials: Credentials, fix_wav_type: bool) -> (r: Result<ApiClient, ConfigError>)
        ensures
            match r {
                Ok(c) => url_of(credentials.url@ + "/v1/recognize"@) matches Some(u)
                    && c.endpoint@ == u && c.credentials == credentials && c.fix_wav_type
                    == fix_wav_type,
                Err(e) => url_of(credentials.url@ + "/v1/recognize"@) is None && (e matches
                ConfigError::InvalidBaseUrl { details: d } && d == credentials.url),
            },
    {
        let full = credentials.url.clone().concat("/v1/recognize");
        match parse_url(full.as_str()) {
            Some(endpoint) => Ok(ApiClient { credentials, endpoint, fix_wav_type }),
            None => Err(ConfigError::InvalidBaseUrl { details: credentials.url.clone() }),
        }
    }

    /// Whether the given content type must be normalized before the upstream
    /// call: exactly when it declares the `audio` type with subtype
    /// `vnd.wave`, parameters ignored.
    pub fn needs_wav_fix(content_type: &str) -> (r: bool)
        ensures
            r == needs_wav_fix_spec(content_type@),
    {
        match parse_mime_parts(content_type) {
            Some((ty, subtype)) => ty == String::from_str("audio") && subtype == String::from_str(
                "vnd.wave",
            ),
            None => false,
        }
    }

    /// The content type this client sends upstream for a declared one.
    pub fn request_content_type(&self, content_type: &str) -> (r: String)
        ensures
            r@ == normalized_content_type(content_type@, self.fix_wav_type),
    {
        if self.fix_wav_type && Self::needs_wav_fix(content_type) {
            String::from_str("audio/wav")
        } else {
            String::from_str(content_type)
        }
    }

    /// Builds the outbound request for a payload: a POST to the resolved
    /// endpoint, HTTP Basic authentication with the fixed username `apikey`
    /// and the configured secret, the normalized content type, and the
    /// payload bytes verbatim.
    pub fn recognize_request(&self, content_type: &str, data: Vec<u8>) -> (r: RecognitionRequest)
        ensures
            r.url@ == self.endpoint@,
            r.username@ == "apikey"@,
            r.password@ == self.credentials.apikey@,
            r.content_type@ == normalized_content_type(content_type@, self.fix_wav_type),
            r.body@ == data@,
    {
        RecognitionRequest {
            url: self.endpoint.clone(),
            username: String::from_str("apikey"),
            password: self.credentials.apikey.clone(),
            content_type: self.request_content_type(content_type),
            body: data,
        }
    }
}

} // verus!

//! The API base URL, the URLs of endpoints below it, and the
//! `Authorization` header value, built with the `url` and `http` types that
//! `reqwest` re-exports.
use vstd::prelude::*;
use crate::error::ClientError;
use crate::paths::strings_view;
use crate::text::{ends_with_char, push_char, push_str, trim_end_char, trim_end_char_spec};

verus! {

#[verifier::external_type_specification]
#[verifier::external_body]
pub struct ExUrl(reqwest::Url);

#[verifier::external_type_specification]
#[verifier::external_body]
pub struct ExHeaderValue(reqwest::header::HeaderValue);

/// What `Url::parse` makes of `input`: the serialization of the URL it
/// parses, or the text (`Display`) of the `ParseError` it refuses the input
/// with.
pub uninterp spec fn url_parse(input: Seq<char>) -> Result<Seq<char>, Seq<char>>;

/// What `Url::path` returns for the URL serialized as `url`.
pub uninterp spec fn url_path(url: Seq<char>) -> Seq<char>;

/// The serialization of the URL serialized as `url` after
/// `Url::set_path(path)`.
pub uninterp spec fn url_set_path(url: Seq<char>, path: Seq<char>) -> Seq<char>;

/// Whether `Url::path_segments_mut` refuses the URL serialized as `url`
/// (a cannot-be-a-base URL).
pub uninterp spec fn url_cannot_be_a_base(url: Seq<char>) -> bool;

/// The serialization of the URL serialized as `url` after
/// `PathSegmentsMut::extend(segments)`.
pub uninterp spec fn url_push_segments(url: Seq<char>, segments: Seq<Seq<char>>) -> Seq<char>;

/// A parsed URL, kept together with its serialization.
#[derive(Debug)]
pub struct BaseUrl {
    url: reqwest::Url,
    text: String,
}

impl View for BaseUrl {
    type V = Seq<char>;

    closed spec fn view(&self) -> Seq<char> {
        self.text@
    }
}

/// Parses `input` as a URL (`Url::parse`); where it is refused, the text of
/// the parse error.
#[verifier::external_body]
fn parse_url(input: &str) -> (r: Result<BaseUrl, String>)
    ensures
        match url_parse(input@) {
            Ok(u) => r matches Ok(b) && b@ == u,
            Err(e) => r matches Err(m) && m@ == e,
        },
{
    match reqwest::Url::parse(input) {
        Ok(url) => {
            let text = url.as_str().to_string();
            Ok(BaseUrl { url, text })
        },
        Err(e) => Err(e.to_string()),
    }
}

/// The path of `u` (`Url::path`).
#[verifier::external_body]
fn path_of(u: &BaseUrl) -> (r: String)
    ensures
        r@ == url_path(u@),
{
    u.url.path().to_string()
}

/// Replaces the path of `u` (`Url::set_path`).
#[verifier::external_body]
fn set_path(u: &mut BaseUrl, path: &str)
    ensures
        final(u)@ == url_set_path(old(u)@, path@),
{
    u.url.set_path(path);
    u.text = u.url.as_str().to_string();
}

/// The serialization of `u` with `segments` appended to its path
/// (`Url::path_segments_mut` and `PathSegmentsMut::extend`); `None` where
/// `u` cannot be a base.
#[verifier::external_body]
fn with_segments(u: &BaseUrl, segments: &Vec<String>) -> (r: Option<String>)
    ensures
        r is None <==> url_cannot_be_a_base(u@),
        r matches Some(s) ==> s@ == url_push_segments(u@, strings_view(segments@)),
{
    let mut url = u.url.clone();
    match url.path_segments_mut() {
        Ok(mut path) => {
            path.extend(segments);
        },
        Err(_) => return None,
    }
    Some(url.as_str().to_string())
}

/// Whether `b` may stand in an HTTP header value: a visible ASCII
/// character, a space, a tab, or any byte from 0x80 up.
pub open spec fn header_byte_ok(b: u8) -> bool {
    (b >= 32 && b != 127) || b == 9
}

/// Whether every byte of `bytes` may stand in an HTTP header value.
pub open spec fn header_value_ok(bytes: Seq<u8>) -> bool {
    forall|i: int| 0 <= i < bytes.len() ==> header_byte_ok(#[trigger] bytes[i])
}

/// An HTTP header value, kept together with the text it was made from.
#[derive(Debug)]
pub struct HeaderText {
    value: reqwest::header::HeaderValue,
    text: String,
}

impl View for HeaderText {
    type V = Seq<char>;

    closed spec fn view(&self) -> Seq<char> {
        self.text@
    }
}

impl HeaderText {
    /// The text this header value holds.
    pub fn as_str(&self) -> (r: &str)
        ensures
            r@ == self@,
    {
        self.text.as_str()
    }

    /// The header value itself, to hand to the HTTP client.
    pub fn into_value(self) -> reqwest::header::HeaderValue {
        self.value
    }
}

/// The text of the error `HeaderValue::from_str` refuses a value with.
pub open spec fn header_error_text() -> Seq<char> {
    "failed to parse header value"@
}

/// The header value holding `s` (`HeaderValue::from_str`, which copies the
/// bytes of `s`); where a byte of `s` may not stand in a header, the text of
/// the error (`InvalidHeaderValue`'s `Display`, a fixed text).
#[verifier::external_body]
fn header_value(s: &str) -> (r: Result<HeaderText, String>)
    ensures
        r is Ok <==> header_value_ok(vstd::utf8::encode_utf8(s@)),
        r matches Ok(v) ==> v@ == s@,
        r matches Err(e) ==> e@ == header_error_text(),
{
    match reqwest::header::HeaderValue::from_str(s) {
        Ok(value) => Ok(HeaderText { value, text: s.to_string() }),
        Err(e) => Err(e.to_string()),
    }
}

impl BaseUrl {
    /// The serialization of this URL.
    pub fn as_str(&self) -> (r: &str)
        ensures
            r@ == self@,
    {
        self.text.as_str()
    }
}

/// The path that makes the path `p` end in `/`, where it does not already:
/// `p` without its trailing `/` characters, followed by one `/`.
pub open spec fn normalized_path_spec(p: Seq<char>) -> Option<Seq<char>> {
    if p.len() > 0 && p.last() == '/' {
        None
    } else {
        Some(trim_end_char_spec(p, '/').push('/'))
    }
}

/// The new path for a base URL whose path is `path`; `None` where `path`
/// already ends in `/` and stays as it is.
pub fn normalized_path(path: &str) -> (r: Option<String>)
    ensures
        r is None <==> normalized_path_spec(path@) is None,
        r matches Some(p) ==> normalized_path_spec(path@) == Some(p@),
{
    if ends_with_char(path, '/') {
        None
    } else {
        let mut new_path = trim_end_char(path, '/');
        push_char(&mut new_path, '/');
        Some(new_path)
    }
}

/// The base URL that `normalize_base_url` makes of `input`: the parsed URL,
/// with its path set to the normalized path where the path does not end in
/// `/`; or the text of the parse error.
pub open spec fn normalized_url(input: Seq<char>) -> Result<Seq<char>, Seq<char>> {
    match url_parse(input) {
        Err(e) => Err(e),
        Ok(u) => match normalized_path_spec(url_path(u)) {
            None => Ok(u),
            Some(p) => Ok(url_set_path(u, p)),
        },
    }
}

/// Parses the API base URL and makes its path end in `/`, so that endpoint
/// segments go below it.
pub fn normalize_base_url(base_url: &str) -> (r: Result<BaseUrl, ClientError>)
    ensures
        match normalized_url(base_url@) {
            Err(e) => r matches Err(ClientError::InvalidBaseUrl(cause)) && cause@ == e,
            Ok(u) => r matches Ok(b) && b@ == u,
        },
{
    let mut url = match parse_url(base_url) {
        Ok(u) => u,
        Err(cause) => return Err(ClientError::InvalidBaseUrl(cause)),
    };
    let path = path_of(&url);
    if let Some(new_path) = normalized_path(path.as_str()) {
        set_path(&mut url, new_path.as_str());
    }
    Ok(url)
}

/// The URL of the endpoint at `segments` below `base`.
pub fn endpoint(base: &BaseUrl, segments: &Vec<String>) -> (r: Result<String, ClientError>)
    ensures
        url_cannot_be_a_base(base@) ==> r matches Err(ClientError::CannotBeABase),
        !url_cannot_be_a_base(base@) ==> (r matches Ok(s) && s@ == url_push_segments(
            base@,
            strings_view(segments@),
        )),
{
    match with_segments(base, segments) {
        Some(s) => Ok(s),
        None => Err(ClientError::CannotBeABase),
    }
}

/// The `Authorization` value that carries `token`.
pub open spec fn bearer_spec(token: Seq<char>) -> Seq<char> {
    "Bearer "@ + token
}

/// The `Authorization` header value for an optional token: none without a
/// token, `Bearer <token>` with one, and an error where the token holds a
/// byte that may not stand in a header.
pub fn authorization_value(token: Option<&str>) -> (r: Result<Option<HeaderText>, ClientError>)
    ensures
        match token {
            None => r matches Ok(None),
            Some(t) => if header_value_ok(bearer_bytes(t@)) {
                r matches Ok(Some(v)) && v@ == bearer_spec(t@)
            } else {
                r matches Err(ClientError::InvalidToken(cause)) && cause@ == header_error_text()
            },
        },
{
    match token {
        None => Ok(None),
        Some(t) => {
            let mut value = String::from_str("Bearer ");
            push_str(&mut value, t);
            match header_value(value.as_str()) {
                Ok(v) => Ok(Some(v)),
                Err(cause) => Err(ClientError::InvalidToken(cause)),
            }
        },
    }
}

/// The UTF-8 bytes of `Bearer <token>`.
pub open spec fn bearer_bytes(token: Seq<char>) -> Seq<u8> {
    vstd::utf8::encode_utf8(bearer_spec(token))
}

} // verus!

//! Addresses of the server and the requests sent to its API.

use vstd::prelude::*;
use crate::text::optional;

verus! {

/// Name of the header that carries the token.
pub open spec fn key_header() -> Seq<char> {
    "X-Gotify-Key"@
}

/// Verb of a request.
#[derive(Debug, Clone, Copy, PartialEq, Eq, Structural)]
pub enum Method {
    Get,
    Delete,
}

/// A call to the server's API, ready to be sent.
#[derive(Debug, Clone, PartialEq, Eq)]
pub struct Request {
    /// Verb of the request.
    pub method: Method,
    /// Address the request goes to.
    pub url: String,
    /// Name of the header that authenticates the request.
    pub header: String,
    /// The token, sent as the value of that header.
    pub key: String,
}

/// A `Request` as plain text.
pub struct RequestView {
    pub method: Method,
    pub url: Seq<char>,
    pub header: Seq<char>,
    pub key: Seq<char>,
}

impl View for Request {
    type V = RequestView;

    open spec fn view(&self) -> RequestView {
        RequestView { method: self.method, url: self.url@, header: self.header@, key: self.key@ }
    }
}

/// Why a request could not be made, or what was wrong with its answer.
#[derive(Debug, Clone, Copy, PartialEq, Eq, Structural)]
pub enum RequestError {
    /// The address of the server is not a URL that paths can be added to.
    InvalidUrl,
    /// The scheme of the server's address is neither `ws` nor `wss`.
    UnexpectedScheme,
    /// The server answered with a status outside the success range.
    Status { code: u16 },
    /// The answer did not have the expected shape.
    Decode,
}

/// The scheme of the URL that `url` parses to; `None` where `url` is no
/// absolute URL.
pub uninterp spec fn url_scheme(url: Seq<char>) -> Option<Seq<char>>;

/// The URL `url` with its scheme replaced by `scheme`; `None` where `url` is
/// no absolute URL or the scheme cannot be changed to `scheme`.
pub uninterp spec fn url_with_scheme(url: Seq<char>, scheme: Seq<char>) -> Option<Seq<char>>;

/// The URL `url` with `segment` pushed onto the end of its path, encoded as
/// a single segment; `None` where `url` is no absolute URL or has no path
/// that segments can be added to.
pub uninterp spec fn url_with_segment(url: Seq<char>, segment: Seq<char>) -> Option<Seq<char>>;

/// The URL `url` with the pair `name=value` added at the end of its query;
/// `None` where `url` is no absolute URL.
pub uninterp spec fn url_with_query(url: Seq<char>, name: Seq<char>, value: Seq<char>) -> Option<
    Seq<char>,
>;

/// The URL that `reference` stands for when it is read relative to `url`;
/// `None` where `url` is no absolute URL or `reference` cannot be resolved.
pub uninterp spec fn url_joined(url: Seq<char>, reference: Seq<char>) -> Option<Seq<char>>;

/// The longest text, in characters, that is taken for an address or for a
/// part of one. It keeps every address far below the four gigabytes that
/// a URL can hold.
pub const MAX_TEXT: usize = 16_777_216;

/// Whether `text` is short enough to be an address or a part of one.
pub open spec fn fits(text: Seq<char>) -> bool {
    text.len() <= MAX_TEXT
}

/// Reads `url` with `url::Url::parse` and gives what `url::Url::scheme`
/// returns for it. The result is that of `url_scheme`, which is `None` where
/// the parser refuses `url`.
#[verifier::external_body]
fn scheme(url: &str) -> (found: Option<String>)
    requires
        fits(url@),
    ensures
        optional(found) == url_scheme(url@),
{
    url::Url::parse(url).ok().map(|u| u.scheme().to_owned())
}

/// Reads `url` with `url::Url::parse`, changes its scheme with
/// `url::Url::set_scheme` and gives the URL's text. The result is that of
/// `url_with_scheme`, which is `None` where either call fails. The texts
/// are kept short because `set_scheme` panics when the URL outgrows four
/// gigabytes.
#[verifier::external_body]
fn with_scheme(url: &str, scheme: &str) -> (changed: Option<String>)
    requires
        fits(url@),
        fits(scheme@),
    ensures
        optional(changed) == url_with_scheme(url@, scheme@),
{
    let mut parsed = url::Url::parse(url).ok()?;
    parsed.set_scheme(scheme).ok()?;
    Some(String::from(parsed))
}

/// Reads `url` with `url::Url::parse`, adds `segment` to its path with
/// `url::PathSegmentsMut::push` and gives the URL's text. The result is that
/// of `url_with_segment`, which is `None` where the parser refuses `url` or
/// `url::Url::path_segments_mut` fails. The texts are kept short because
/// `push` panics when the URL outgrows four gigabytes.
#[verifier::external_body]
fn with_segment(url: &str, segment: &str) -> (longer: Option<String>)
    requires
        fits(url@),
        fits(segment@),
    ensures
        optional(longer) == url_with_segment(url@, segment@),
{
    let mut parsed = url::Url::parse(url).ok()?;
    parsed.path_segments_mut().ok()?.push(segment);
    Some(String::from(parsed))
}

/// Reads `url` with `url::Url::parse`, adds a pair to its query with
/// `append_pair` on `url::Url::query_pairs_mut` and gives the URL's text.
/// The result is that of `url_with_query`, which is `None` where the parser
/// refuses `url`. The texts are kept short because `query_pairs_mut`
/// panics when the URL outgrows four gigabytes.
#[verifier::external_body]
fn with_query(url: &str, name: &str, value: &str) -> (longer: Option<String>)
    requires
        fits(url@),
        fits(name@),
        fits(value@),
    ensures
        optional(longer) == url_with_query(url@, name@, value@),
{
    let mut parsed = url::Url::parse(url).ok()?;
    parsed.query_pairs_mut().append_pair(name, value);
    Some(String::from(parsed))
}

/// Reads `url` with `url::Url::parse`, resolves `reference` against it with
/// `url::Url::join` and gives the text of the URL found. The result is that
/// of `url_joined`, which is `None` where either call fails.
#[verifier::external_body]
fn joined(url: &str, reference: &str) -> (found: Option<String>)
    requires
        fits(url@),
        fits(reference@),
    ensures
        optional(found) == url_joined(url@, reference@),
{
    let parsed = url::Url::parse(url).ok()?;
    parsed.join(reference).ok().map(String::from)
}

/// Whether `text` is short enough to be an address or a part of one.
pub fn is_short(text: &str) -> (short: bool)
    ensures
        short == fits(text@),
{
    text.unicode_len() <= MAX_TEXT
}

/// An address that is short enough to be worked on; none for a longer one.
pub open spec fn short(url: Option<Seq<char>>) -> Option<Seq<char>> {
    match url {
        Some(url) => if fits(url) {
            Some(url)
        } else {
            None
        },
        None => None,
    }
}

fn keep_short(url: Option<String>) -> (kept: Option<String>)
    ensures
        optional(kept) == short(optional(url)),
{
    match url {
        Some(url) => if is_short(url.as_str()) {
            Some(url)
        } else {
            None
        },
        None => None,
    }
}

/// The scheme of the address `url`; `None` where `url` is too long or no
/// absolute URL.
pub open spec fn scheme_found(url: Seq<char>) -> Option<Seq<char>> {
    if fits(url) {
        url_scheme(url)
    } else {
        None
    }
}

/// Finds the scheme of the address `url`.
pub fn scheme_of(url: &str) -> (found: Option<String>)
    ensures
        optional(found) == scheme_found(url@),
{
    if is_short(url) {
        scheme(url)
    } else {
        None
    }
}

/// The address `url` with the scheme `scheme`; `None` where a text is too
/// long, `url` is no absolute URL, or its scheme cannot be changed so.
pub open spec fn scheme_changed(url: Option<Seq<char>>, scheme: Seq<char>) -> Option<Seq<char>> {
    match url {
        Some(url) => if fits(url) && fits(scheme) {
            short(url_with_scheme(url, scheme))
        } else {
            None
        },
        None => None,
    }
}

/// Changes the scheme of the address `url`.
pub fn change_scheme(url: Option<&str>, scheme: &str) -> (changed: Option<String>)
    ensures
        optional(changed) == scheme_changed(
            match url {
                Some(u) => Some(u@),
                None => None,
            },
            scheme@,
        ),
{
    match url {
        Some(url) => if is_short(url) && is_short(scheme) {
            keep_short(with_scheme(url, scheme))
        } else {
            None
        },
        None => None,
    }
}

/// The address `url` with `segment` added at the end of its path; `None`
/// where a text is too long, `url` is no absolute URL, or its path cannot
/// take segments.
pub open spec fn segment_added(url: Option<Seq<char>>, segment: Seq<char>) -> Option<Seq<char>> {
    match url {
        Some(url) => if fits(url) && fits(segment) {
            short(url_with_segment(url, segment))
        } else {
            None
        },
        None => None,
    }
}

/// Adds `segment` at the end of the path of the address `url`.
pub fn add_segment(url: Option<&str>, segment: &str) -> (longer: Option<String>)
    ensures
        optional(longer) == segment_added(
            match url {
                Some(u) => Some(u@),
                None => None,
            },
            segment@,
        ),
{
    match url {
        Some(url) => if is_short(url) && is_short(segment) {
            keep_short(with_segment(url, segment))
        } else {
            None
        },
        None => None,
    }
}

/// The address `url` with the pair `name=value` added at the end of its
/// query; `None` where a text is too long or `url` is no absolute URL.
pub open spec fn query_added(url: Option<Seq<char>>, name: Seq<char>, value: Seq<char>) -> Option<
    Seq<char>,
> {
    match url {
        Some(url) => if fits(url) && fits(name) && fits(value) {
            short(url_with_query(url, name, value))
        } else {
            None
        },
        None => None,
    }
}

/// Adds the pair `name=value` at the end of the query of the address `url`.
pub fn add_query(url: Option<&str>, name: &str, value: &str) -> (longer: Option<String>)
    ensures
        optional(longer) == query_added(
            match url {
                Some(u) => Some(u@),
                None => None,
            },
            name@,
            value@,
        ),
{
    match url {
        Some(url) => if is_short(url) && is_short(name) && is_short(value) {
            keep_short(with_query(url, name, value))
        } else {
            None
        },
        None => None,
    }
}

/// The address that `reference` stands for when it is read relative to the
/// address `url`; `None` where a text is too long, `url` is no absolute
/// URL, or `reference` cannot be resolved.
pub open spec fn joined_to(url: Seq<char>, reference: Seq<char>) -> Option<Seq<char>> {
    if fits(url) && fits(reference) {
        short(url_joined(url, reference))
    } else {
        None
    }
}

/// Resolves `reference` relative to the address `url`.
pub fn join(url: &str, reference: &str) -> (found: Option<String>)
    ensures
        optional(found) == joined_to(url@, reference@),
{
    if is_short(url) && is_short(reference) {
        keep_short(joined(url, reference))
    } else {
        None
    }
}

/// Whether two strings hold the same text.
pub fn same_text(a: &str, b: &str) -> (same: bool)
    ensures
        same == (a@ == b@),
{
    a.to_owned() == b.to_owned()
}

/// The scheme of the API that goes with a stream of scheme `scheme`.
pub open spec fn api_scheme(scheme: Seq<char>) -> Option<Seq<char>> {
    if scheme == "wss"@ {
        Some("https"@)
    } else if scheme == "ws"@ {
        Some("http"@)
    } else {
        None
    }
}

/// Picks the scheme of the API from the scheme of the stream: `https` for
/// `wss`, `http` for `ws`, and none for any other.
pub fn http_scheme(scheme: &str) -> (found: Option<&'static str>)
    ensures
        match found {
            Some(s) => api_scheme(scheme@) == Some(s@),
            None => api_scheme(scheme@).is_none(),
        },
{
    if same_text(scheme, "wss") {
        Some("https")
    } else if same_text(scheme, "ws") {
        Some("http")
    } else {
        None
    }
}

/// Whether a status is in the success range, 200 to 299.
pub open spec fn is_success(status: u16) -> bool {
    200 <= status < 300
}

/// Whether a status is informational, 100 to 199.
pub open spec fn is_informational(status: u16) -> bool {
    100 <= status < 200
}

/// Accepts the answer to a request when its status is in the success range.
pub fn check_status(status: u16) -> (checked: Result<(), RequestError>)
    ensures
        checked == if is_success(status) {
            Ok::<(), RequestError>(())
        } else {
            Err(RequestError::Status { code: status })
        },
{
    if 200 <= status && status < 300 {
        Ok(())
    } else {
        Err(RequestError::Status { code: status })
    }
}

/// Takes the status and the body of an answer of the API and gives the
/// body, provided the status is in the success range.
pub fn send_request(status: u16, body: Vec<u8>) -> (got: Result<Vec<u8>, RequestError>)
    ensures
        got == if is_success(status) {
            Ok::<Vec<u8>, RequestError>(body)
        } else {
            Err(RequestError::Status { code: status })
        },
{
    match check_status(status) {
        Ok(()) => Ok(body),
        Err(e) => Err(e),
    }
}

/// Whether the answer to the opening of the stream lets the stream be used:
/// its status is informational or in the success range.
pub open spec fn is_accepted(status: u16) -> bool {
    is_informational(status) || is_success(status)
}

/// Accepts the answer to the opening of the stream unless its status is
/// neither informational nor in the success range.
pub fn check_handshake(status: u16) -> (checked: Result<(), RequestError>)
    ensures
        checked == if is_accepted(status) {
            Ok::<(), RequestError>(())
        } else {
            Err(RequestError::Status { code: status })
        },
{
    if 100 <= status && status < 300 {
        Ok(())
    } else {
        Err(RequestError::Status { code: status })
    }
}

/// What an answer of the API holds: `body` when the status is in the
/// success range and the body had the expected shape.
pub open spec fn answer<T>(status: u16, body: Option<T>) -> Result<T, RequestError> {
    if !is_success(status) {
        Err(RequestError::Status { code: status })
    } else {
        match body {
            Some(value) => Ok(value),
            None => Err(RequestError::Decode),
        }
    }
}

/// Takes the status of an answer of the API and what its body was decoded
/// to, `None` where it did not have the expected shape, and gives the
/// body. The status is looked at first.
pub fn send_api_request<T>(status: u16, body: Option<T>) -> (got: Result<T, RequestError>)
    ensures
        got == answer(status, body),
{
    match check_status(status) {
        Err(e) => Err(e),
        Ok(()) => match body {
            Some(value) => Ok(value),
            None => Err(RequestError::Decode),
        },
    }
}

} // verus!

//! Plain descriptions of the HTTP exchange that the client performs. Nothing
//! here touches the network: a request is a value for the caller to send, and
//! a response is the value the caller hands back.

use vstd::prelude::*;

verus! {

/// The HTTP methods the client issues.
#[derive(Clone, Copy, Debug, PartialEq, Eq, Structural)]
pub enum HttpMethod {
    Get,
    Post,
    Patch,
    Delete,
}

/// The name of the header in which a request carries its session cookie.
pub const SESSION_HEADER: &'static str = "Cookies";

/// One header of a request.
#[derive(Clone, Debug, PartialEq, Eq)]
pub struct Header {
    pub name: String,
    pub value: String,
}

/// The mathematical content of a [`Header`].
pub struct HeaderView {
    pub name: Seq<char>,
    pub value: Seq<char>,
}

impl View for Header {
    type V = HeaderView;

    open spec fn view(&self) -> HeaderView {
        HeaderView { name: self.name@, value: self.value@ }
    }
}

impl DeepView for Header {
    type V = HeaderView;

    open spec fn deep_view(&self) -> HeaderView {
        self@
    }
}

/// One request, ready to be sent.
#[derive(Clone, Debug, PartialEq, Eq)]
pub struct Request {
    pub method: HttpMethod,
    pub url: String,
    /// The headers that the client sets on the request.
    pub headers: Vec<Header>,
    /// The JSON document to send as the body, if the method carries one.
    pub body: Option<String>,
}

/// The mathematical content of a [`Request`].
pub struct RequestView {
    pub method: HttpMethod,
    pub url: Seq<char>,
    pub headers: Seq<HeaderView>,
    pub body: Option<Seq<char>>,
}

impl View for Request {
    type V = RequestView;

    open spec fn view(&self) -> RequestView {
        RequestView {
            method: self.method,
            url: self.url@,
            headers: self.headers.deep_view(),
            body: self.body.deep_view(),
        }
    }
}

/// The headers of a request that carries `cookie` as its session cookie.
pub open spec fn session_headers(cookie: Seq<char>) -> Seq<HeaderView> {
    seq![HeaderView { name: SESSION_HEADER@, value: cookie }]
}

/// What came back from the server: the status code and the body text.
#[derive(Clone, Debug, PartialEq, Eq)]
pub struct Response {
    pub status: u16,
    pub body: String,
}

/// A status code is a success when it lies in 200..=299.
pub open spec fn status_is_success(status: u16) -> bool {
    200 <= status < 300
}

impl Response {
    /// Whether the server answered with a 2xx status.
    pub fn is_success(&self) -> (r: bool)
        ensures
            r == status_is_success(self.status),
    {
        200 <= self.status && self.status < 300
    }
}

/// A character that may stand in the value of an HTTP header: a tab, or
/// anything from the space upwards except the delete character.
pub open spec fn is_header_char(c: char) -> bool {
    c == '\t' || (' ' <= c && c != '\x7f')
}

/// Text that may stand as the value of an HTTP header.
pub open spec fn is_header_text(text: Seq<char>) -> bool {
    forall|i: int| 0 <= i < text.len() ==> is_header_char(#[trigger] text[i])
}

/// Asks `reqwest::header::HeaderValue::from_str` whether it takes `text`.
/// Trusted: it refuses exactly the text that holds a byte below 32 other than
/// the tab, or the byte 127; the bytes of a character beyond ASCII are all
/// above 127, so the test on bytes is the test on characters stated here.
#[verifier::external_body]
pub(crate) fn header_value_accepts(text: &str) -> (r: bool)
    ensures
        r == is_header_text(text@),
{
    reqwest::header::HeaderValue::from_str(text).is_ok()
}

} // verus!

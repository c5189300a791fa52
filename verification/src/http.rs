use vstd::prelude::*;

verus! {

/// The HTTP methods that the payment providers are called with.
#[derive(Debug, Clone, Copy, PartialEq, Eq, Structural)]
pub enum HttpMethod {
    Get,
    Post,
}

/// An HTTP request that the library asks its caller to send.
#[derive(Debug, Clone)]
pub struct HttpRequest {
    pub method: HttpMethod,
    pub url: String,
    /// Header names and values, in the order in which they are set.
    pub headers: Vec<(String, String)>,
    /// A body given as text; a JSON body is attached by the caller from the
    /// payload that accompanies the request.
    pub body: Option<String>,
}

/// The mathematical content of an [`HttpRequest`].
pub struct HttpRequestView {
    pub method: HttpMethod,
    pub url: Seq<char>,
    pub headers: Seq<(Seq<char>, Seq<char>)>,
    pub body: Option<Seq<char>>,
}

impl View for HttpRequest {
    type V = HttpRequestView;

    open spec fn view(&self) -> HttpRequestView {
        HttpRequestView {
            method: self.method,
            url: self.url@,
            headers: self.headers.deep_view(),
            body: self.body.deep_view(),
        }
    }
}

/// What came back for a request: the status code, the status as text (code
/// and reason phrase) and the body as text.
#[derive(Debug, Clone)]
pub struct HttpReply {
    pub status: u16,
    pub status_text: String,
    pub body: String,
}

/// Whether a status code reports success (2xx).
pub open spec fn is_success_status(code: u16) -> bool {
    200 <= code && code <= 299
}

/// Whether a status code reports success (2xx).
pub fn is_success(code: u16) -> (b: bool)
    ensures
        b == is_success_status(code),
{
    200 <= code && code <= 299
}

/// A header as a pair of texts.
pub open spec fn header(name: Seq<char>, value: Seq<char>) -> (Seq<char>, Seq<char>) {
    (name, value)
}

/// Appends the header `name: value`.
pub fn push_header(headers: &mut Vec<(String, String)>, name: &str, value: &str)
    ensures
        final(headers).deep_view() == old(headers).deep_view().push(header(name@, value@)),
{
    let ghost before = headers.deep_view();
    headers.push((String::from_str(name), String::from_str(value)));
    assert(headers.deep_view() =~= before.push(header(name@, value@)));
}

} // verus!

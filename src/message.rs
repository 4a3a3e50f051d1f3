use vstd::prelude::*;

verus! {

/// The request methods the guest can be handed.
#[derive(Clone, Copy, Debug, PartialEq, Eq, Structural)]
pub enum Method {
    Get,
    Post,
    Put,
    Delete,
    Patch,
    Head,
    Options,
}

/// A fully buffered inbound request, as the guest receives it.
#[derive(Debug)]
pub struct HttpRequest {
    pub method: Method,
    pub uri: String,
    pub headers: Vec<(String, String)>,
    pub params: Vec<(String, String)>,
    pub body: Option<Vec<u8>>,
}

/// A response produced by the guest.
#[derive(Debug)]
pub struct Response {
    pub status: u16,
    pub headers: Option<Vec<(String, String)>>,
    pub body: Option<Vec<u8>>,
}

/// The typed errors a guest handler can return instead of a response.
#[derive(Debug)]
pub enum HttpError {
    InvalidUrl(String),
    TimeoutError(String),
    ProtocolError(String),
    StatusError(u16),
    UnexpectedError(String),
}

/// The view of a list of string pairs as a sequence of character pairs.
pub open spec fn pairs_view(v: Seq<(String, String)>) -> Seq<(Seq<char>, Seq<char>)> {
    v.map_values(|p: (String, String)| (p.0@, p.1@))
}

/// Assembles the request handed to the guest. The body is always present:
/// an empty inbound body becomes an empty byte sequence.
pub fn build_http_request(
    method: Method,
    uri: String,
    headers: Vec<(String, String)>,
    params: Vec<(String, String)>,
    body: Vec<u8>,
) -> (r: HttpRequest)
    ensures
        r.method == method,
        r.uri == uri,
        r.headers == headers,
        r.params == params,
        r.body == Some(body),
{
    HttpRequest { method, uri, headers, params, body: Some(body) }
}

} // verus!

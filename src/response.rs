use vstd::prelude::*;
use vstd::utf8::is_ascii_chars;
use vstd::utf8::encode_utf8;
use crate::message::{HttpError, Response};

verus! {

/// The response a worker writes to the socket.
#[derive(Debug)]
pub struct OutgoingResponse {
    pub status: u16,
    pub headers: Vec<(String, String)>,
    pub body: Vec<u8>,
}

/// A response with the given status and a text body.
pub fn text_response(status: u16, text: &str) -> (r: OutgoingResponse)
    ensures
        r.status == status,
        r.headers@.len() == 0,
        r.body@ == encode_utf8(text@),
{
    OutgoingResponse { status, headers: Vec::new(), body: text.as_bytes_vec() }
}

/// `400 Bad request`: no route is declared for the request's method.
pub fn bad_request() -> (r: OutgoingResponse)
    ensures
        r.status == 400,
        r.headers@.len() == 0,
        r.body@ == encode_utf8("Bad request"@),
{
    text_response(400, "Bad request")
}

/// `404 Not found`: no route of the request's method matches its path.
pub fn not_found() -> (r: OutgoingResponse)
    ensures
        r.status == 404,
        r.headers@.len() == 0,
        r.body@ == encode_utf8("Not found"@),
{
    text_response(404, "Not found")
}

/// `500 Internal server error`: the request could not be carried to the guest
/// and back, or the guest's response cannot be written.
pub fn internal_error() -> (r: OutgoingResponse)
    ensures
        r.status == 500,
        r.headers@.len() == 0,
        r.body@ == encode_utf8("Internal server error"@),
{
    text_response(500, "Internal server error")
}

/// The status a typed guest error is answered with.
pub open spec fn error_status(e: HttpError) -> u16 {
    match e {
        HttpError::InvalidUrl(_) => 400,
        HttpError::TimeoutError(_) => 408,
        HttpError::ProtocolError(_) => 400,
        HttpError::StatusError(code) => code,
        HttpError::UnexpectedError(_) => 500,
    }
}

/// The body a typed guest error is answered with.
pub open spec fn error_body(e: HttpError) -> Seq<char> {
    match e {
        HttpError::InvalidUrl(msg) => msg@,
        HttpError::TimeoutError(msg) => msg@,
        HttpError::ProtocolError(msg) => msg@,
        HttpError::StatusError(_) => "Unexpected error"@,
        HttpError::UnexpectedError(msg) => msg@,
    }
}

/// The response for a typed error returned by the guest.
pub fn error_response(e: HttpError) -> (r: OutgoingResponse)
    ensures
        r.status == error_status(e),
        r.headers@.len() == 0,
        r.body@ == encode_utf8(error_body(e)),
{
    match e {
        HttpError::InvalidUrl(msg) => text_response(400, msg.as_str()),
        HttpError::TimeoutError(msg) => text_response(408, msg.as_str()),
        HttpError::ProtocolError(msg) => text_response(400, msg.as_str()),
        HttpError::StatusError(code) => text_response(code, "Unexpected error"),
        HttpError::UnexpectedError(msg) => text_response(500, msg.as_str()),
    }
}

/// The header's name and value can both be written: every character is ASCII.
pub open spec fn header_writable(h: (String, String)) -> bool {
    is_ascii_chars(h.0@) && is_ascii_chars(h.1@)
}

/// Relies on tiny_http::Header::from_bytes: it accepts a name and a value
/// exactly when both are ASCII (each goes through AsciiString::from_ascii).
#[verifier::external_body]
fn header_accepted(name: &str, value: &str) -> (r: bool)
    ensures
        r == (is_ascii_chars(name@) && is_ascii_chars(value@)),
{
    tiny_http::Header::from_bytes(name.as_bytes(), value.as_bytes()).is_ok()
}

/// The headers of a guest response; none stands for no headers.
pub open spec fn response_headers(res: Response) -> Seq<(String, String)> {
    match res.headers {
        Some(h) => h@,
        None => Seq::empty(),
    }
}

/// The body of a guest response; none stands for an empty body.
pub open spec fn response_body(res: Response) -> Seq<u8> {
    match res.body {
        Some(b) => b@,
        None => Seq::empty(),
    }
}

/// `r` is what a worker writes for the guest response `res`: the same status,
/// headers and body when every header can be written, `500` otherwise.
pub open spec fn answers_guest(res: Response, r: OutgoingResponse) -> bool {
    if forall|i: int|
        0 <= i < response_headers(res).len() ==> header_writable(
            #[trigger] response_headers(res)[i],
        ) {
        &&& r.status == res.status
        &&& r.headers@ == response_headers(res)
        &&& r.body@ == response_body(res)
    } else {
        &&& r.status == 500
        &&& r.headers@.len() == 0
        &&& r.body@ == encode_utf8("Internal server error"@)
    }
}

/// The response for what the guest produced: its status, headers and body,
/// or `500` when some header cannot be written.
pub fn guest_response(res: Response) -> (r: OutgoingResponse)
    ensures
        answers_guest(res, r),
{
    let headers = match res.headers {
        Some(h) => h,
        None => Vec::new(),
    };
    let mut i: usize = 0;
    while i < headers.len()
        invariant
            i <= headers@.len(),
            headers@ == response_headers(res),
            forall|j: int| 0 <= j < i ==> header_writable(#[trigger] headers@[j]),
        decreases headers@.len() - i,
    {
        if !header_accepted(headers[i].0.as_str(), headers[i].1.as_str()) {
            assert(!header_writable(response_headers(res)[i as int]));
            return internal_error();
        }
        i = i + 1;
    }
    let body = match res.body {
        Some(b) => b,
        None => Vec::new(),
    };
    OutgoingResponse { status: res.status, headers, body }
}

/// The response for the dispatcher's reply to an invocation; `None` stands
/// for a reply that never came (the channel failed).
pub fn reply_response(reply: Option<Result<Response, HttpError>>) -> (r: OutgoingResponse)
    ensures
        match reply {
            None => r.status == 500 && r.headers@.len() == 0 && r.body@ == encode_utf8(
                "Internal server error"@,
            ),
            Some(Err(e)) => r.status == error_status(e) && r.headers@.len() == 0 && r.body@
                == encode_utf8(error_body(e)),
            Some(Ok(res)) => answers_guest(res, r),
        },
{
    match reply {
        None => internal_error(),
        Some(Err(e)) => error_response(e),
        Some(Ok(res)) => guest_response(res),
    }
}

} // verus!

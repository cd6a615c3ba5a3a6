//! Requests to send and answers received, as plain values, and the rule that
//! decides whether an answer is accepted.
use vstd::prelude::*;
use crate::text::decimal_string;

verus! {

/// The HTTP methods the API is called with.
#[derive(Clone, Copy, Debug, PartialEq, Eq, Structural)]
pub enum HttpMethod {
    Get,
    Post,
    Delete,
}

/// One header line of a request, in the order in which it is set.
pub struct Header {
    pub name: String,
    pub value: String,
}

impl View for Header {
    type V = (Seq<char>, Seq<char>);

    open spec fn view(&self) -> (Seq<char>, Seq<char>) {
        (self.name@, self.value@)
    }
}

/// Makes a header from its name and value.
pub fn header(name: &str, value: String) -> (h: Header)
    ensures
        h@ == (name@, value@),
{
    Header { name: name.to_owned(), value }
}

/// A request to the API: method, full URL, headers in the order they are set
/// (a later header of the same name replaces an earlier one), and the JSON
/// text of the body, if the request has one. A JSON body is sent with the
/// header `Content-Type: application/json; charset=UTF-8`.
pub struct ApiRequest {
    pub method: HttpMethod,
    pub url: String,
    pub headers: Vec<Header>,
    pub json_body: Option<String>,
}

/// The mathematical content of an [`ApiRequest`].
pub struct ApiRequestView {
    pub method: HttpMethod,
    pub url: Seq<char>,
    pub headers: Seq<(Seq<char>, Seq<char>)>,
    pub json_body: Option<Seq<char>>,
}

pub open spec fn headers_view(headers: Seq<Header>) -> Seq<(Seq<char>, Seq<char>)> {
    headers.map_values(|h: Header| h@)
}

pub open spec fn string_option_view(s: Option<String>) -> Option<Seq<char>> {
    match s {
        Some(t) => Some(t@),
        None => None,
    }
}

impl View for ApiRequest {
    type V = ApiRequestView;

    open spec fn view(&self) -> ApiRequestView {
        ApiRequestView {
            method: self.method,
            url: self.url@,
            headers: headers_view(self.headers@),
            json_body: string_option_view(self.json_body),
        }
    }
}

/// An answer of the server: its status code and the bytes of its body.
pub struct HttpResponse {
    pub status_code: i32,
    pub body: Vec<u8>,
}

/// The error of a call to the API, with a message for people.
pub struct APIError {
    pub message: String,
}

impl APIError {
    /// An error with the given message.
    pub fn new(message: String) -> (e: APIError)
        ensures
            e.message@ == message@,
    {
        APIError { message }
    }
}

/// Whether a status code reports success: 200 to 299, both included.
pub open spec fn is_success_status(code: int) -> bool {
    200 <= code <= 299
}

/// The message of a refused answer: the status code, a colon, a space and
/// the body's text.
pub open spec fn status_error_message(code: int, body: Seq<u8>) -> Seq<char> {
    crate::text::decimal_text(code) + ": "@ + vstd::utf8::decode_utf8(body)
}

/// `std::str::from_utf8`: by its documentation, the bytes as a string slice
/// exactly when they are valid UTF-8. The contract claims that the result is
/// present iff the bytes are valid UTF-8 (`vstd`'s definition), and that its
/// characters are then those the bytes encode.
#[verifier::external_body]
fn str_from_utf8(bytes: &[u8]) -> (r: Option<&str>)
    ensures
        r is Some <==> vstd::utf8::valid_utf8(bytes@),
        r matches Some(s) ==> s@ == vstd::utf8::decode_utf8(bytes@),
{
    std::str::from_utf8(bytes).ok()
}

/// Exactly the statuses from 200 to 299 count as success: 199, 300, 401
/// and 500 do not.
pub proof fn lemma_success_is_2xx(code: int)
    ensures
        is_success_status(code) <==> 200 <= code && code <= 299,
        !is_success_status(401),
        !is_success_status(199),
        !is_success_status(300),
{
}

/// The message of a refused answer is the status in decimal digits, then
/// `": "`, then the body's text; its status part reads back as the status.
pub proof fn lemma_refusal_message(code: int, body: Seq<u8>)
    ensures
        ({
            let m = status_error_message(code, body);
            let d = crate::text::decimal_text(code);
            &&& m.len() == d.len() + 2 + vstd::utf8::decode_utf8(body).len()
            &&& m.subrange(0, d.len() as int) == d
            &&& m[d.len() as int] == ':'
            &&& m[d.len() + 1int] == ' '
            &&& m.subrange(d.len() + 2int, m.len() as int) == vstd::utf8::decode_utf8(body)
            &&& crate::text::decimal_text_value(d) == code
        }),
{
    reveal_strlit(": ");
    let m = status_error_message(code, body);
    let d = crate::text::decimal_text(code);
    assert(m.subrange(0, d.len() as int) =~= d);
    assert(m.subrange(d.len() + 2int, m.len() as int) =~= vstd::utf8::decode_utf8(body));
    crate::text::lemma_decimal_text_value(code);
}

fn refusal(code: i32, body_text: &str) -> (e: APIError)
    ensures
        e.message@ == crate::text::decimal_text(code as int) + ": "@ + body_text@,
{
    let mut message = decimal_string(code);
    message.append(": ");
    message.append(body_text);
    APIError { message }
}

/// Decides on an answer of the server: one with a status from 200 to 299 is
/// accepted and handed back unchanged; any other is refused with the message
/// `"<status>: <body>"`. The body of a refused answer must be UTF-8 text.
pub fn check_response(response: HttpResponse) -> (r: Result<HttpResponse, APIError>)
    requires
        is_success_status(response.status_code as int) || vstd::utf8::valid_utf8(response.body@),
    ensures
        is_success_status(response.status_code as int) ==> r == Ok::<HttpResponse, APIError>(response),
        !is_success_status(response.status_code as int) ==> (r matches Err(e)
            && e.message@ == status_error_message(response.status_code as int, response.body@)),
        200 <= response.status_code <= 299 ==> r is Ok,
        !(200 <= response.status_code <= 299) ==> r is Err,
{
    if 200 <= response.status_code && response.status_code <= 299 {
        Ok(response)
    } else {
        let body_text = str_from_utf8(response.body.as_slice()).unwrap();
        Err(refusal(response.status_code, body_text))
    }
}

/// [`check_response`] for any answer: `None` where the answer is refused and
/// its body is not UTF-8 text, a case the message cannot be written for.
pub fn try_check_response(response: HttpResponse) -> (r: Option<Result<HttpResponse, APIError>>)
    ensures
        r is None <==> (!is_success_status(response.status_code as int) && !vstd::utf8::valid_utf8(
            response.body@,
        )),
        is_success_status(response.status_code as int) ==> r == Some(
            Ok::<HttpResponse, APIError>(response),
        ),
        !is_success_status(response.status_code as int) && vstd::utf8::valid_utf8(response.body@) ==> (r matches Some(
            Err(e),
        ) && e.message@ == status_error_message(response.status_code as int, response.body@)),
        200 <= response.status_code <= 299 ==> r matches Some(Ok(_)),
        !(200 <= response.status_code <= 299) ==> !(r matches Some(Ok(_))),
{
    if 200 <= response.status_code && response.status_code <= 299 {
        Some(Ok(response))
    } else {
        match str_from_utf8(response.body.as_slice()) {
            Some(body_text) => Some(Err(refusal(response.status_code, body_text))),
            None => None,
        }
    }
}

} // verus!

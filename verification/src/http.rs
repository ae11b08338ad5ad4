//! What the library asks the HTTP layer to do, and what it answers.
use vstd::prelude::*;
use vstd::string::*;

verus! {

/// HTTP method of a request.
#[derive(Debug, Clone, Copy, PartialEq, Eq, Structural)]
pub enum HttpMethod {
    Get,
    Post,
}

/// A request to send: method, full URL and headers in order. A JSON body, where
/// an endpoint has one, is attached by the caller.
#[derive(Debug)]
pub struct HttpRequest {
    pub method: HttpMethod,
    pub url: String,
    pub headers: Vec<(String, String)>,
}

/// A list of string pairs (headers, storage entries) as pairs of character sequences.
pub open spec fn pairs_view(h: Seq<(String, String)>) -> Seq<(Seq<char>, Seq<char>)> {
    h.map_values(|p: (String, String)| (p.0@, p.1@))
}

/// A failed request, with the message the user is shown.
#[derive(Debug)]
pub struct RequestError {
    pub message: String,
}

/// What to do once the status of a reply is known.
#[derive(Debug)]
pub enum ReplyStep<T> {
    /// read the body of a successful reply
    ReadBody,
    /// read the body of a failed reply
    ReadErrorBody,
    /// the call is over, with this result
    Finish(Result<T, RequestError>),
}

/// A failure whose message is `message`.
pub fn request_error(message: &str) -> (e: RequestError)
    ensures
        e.message@ == message@,
{
    RequestError { message: String::from_str(message) }
}

/// A header `name: value`.
pub fn header(name: &str, value: &str) -> (h: (String, String))
    ensures
        h.0@ == name@,
        h.1@ == value@,
{
    (String::from_str(name), String::from_str(value))
}

} // verus!

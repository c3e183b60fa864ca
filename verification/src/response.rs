//! Framing an answer for the wire: status, headers and body.

use vstd::prelude::*;

use crate::reply::{Payload, Reply};

verus! {

/// One header of a response.
pub struct Header {
    /// The name of the header.
    pub field: String,
    /// Its value.
    pub value: String,
}

/// A response as it goes on the wire.
pub struct Response {
    /// The HTTP status code.
    pub status: u16,
    /// The headers, in order.
    pub headers: Vec<Header>,
    /// The body.
    pub data: Vec<u8>,
    /// The length to announce for the body, if one is announced.
    pub data_length: Option<usize>,
}

/// A [`Response`] with its texts as sequences of characters.
pub struct ResponseView {
    pub status: u16,
    pub headers: Seq<(Seq<char>, Seq<char>)>,
    pub data: Seq<u8>,
    pub data_length: Option<usize>,
}

impl View for Response {
    type V = ResponseView;

    open spec fn view(&self) -> ResponseView {
        ResponseView {
            status: self.status,
            headers: Seq::new(
                self.headers.len() as nat,
                |i: int| (self.headers[i].field@, self.headers[i].value@),
            ),
            data: self.data@,
            data_length: self.data_length,
        }
    }
}

/// The header that marks a body as JSON.
pub open spec fn json_content_type() -> (Seq<char>, Seq<char>) {
    ("Content-Type"@, "application/json"@)
}

/// The bytes of the text `true` or `false`.
pub open spec fn boolean_text(boolean: bool) -> Seq<u8> {
    if boolean {
        seq![0x74u8, 0x72u8, 0x75u8, 0x65u8]
    } else {
        seq![0x66u8, 0x61u8, 0x6cu8, 0x73u8, 0x65u8]
    }
}

/// The response with status `status` whose body is the JSON text `json`:
/// the body's length is announced and its content type is JSON.
pub fn json_response_with_status(status: u16, json: Vec<u8>) -> (response: Response)
    ensures
        response@ == (ResponseView {
            status,
            headers: seq![json_content_type()],
            data: json@,
            data_length: Some(json.len()),
        }),
{
    let content_length = json.len();
    let mut headers: Vec<Header> = Vec::new();
    headers.push(Header { field: "Content-Type".to_owned(), value: "application/json".to_owned() });
    let response = Response { status, headers, data: json, data_length: Some(content_length) };
    assert(response@.headers =~= seq![json_content_type()]);
    response
}

/// The response with status `status` whose body is the text `true` or
/// `false`, with no header and no announced length.
pub fn boolean_response_with_status(status: u16, boolean: bool) -> (response: Response)
    ensures
        response@ == (ResponseView {
            status,
            headers: Seq::empty(),
            data: boolean_text(boolean),
            data_length: None,
        }),
{
    let data: Vec<u8> = if boolean {
        vec![0x74u8, 0x72u8, 0x75u8, 0x65u8]
    } else {
        vec![0x66u8, 0x61u8, 0x6cu8, 0x73u8, 0x65u8]
    };
    let response = Response { status, headers: Vec::new(), data, data_length: None };
    assert(response@.headers =~= Seq::empty());
    assert(response@.data =~= boolean_text(boolean));
    response
}

/// The response with status `status` and nothing else.
pub fn empty_response_with_status(status: u16) -> (response: Response)
    ensures
        response@ == (ResponseView {
            status,
            headers: Seq::empty(),
            data: Seq::empty(),
            data_length: None,
        }),
{
    let response = Response { status, headers: Vec::new(), data: Vec::new(), data_length: None };
    assert(response@.headers =~= Seq::empty());
    response
}

/// Frames an answer. An answer without content becomes an empty
/// response; any other becomes a JSON response whose body is `json`, the
/// JSON text of its content.
pub fn frame_reply(reply: Reply, json: Vec<u8>) -> (response: Response)
    ensures
        reply.payload is Empty ==> response@ == (ResponseView {
            status: reply.status,
            headers: Seq::empty(),
            data: Seq::empty(),
            data_length: None,
        }),
        !(reply.payload is Empty) ==> response@ == (ResponseView {
            status: reply.status,
            headers: seq![json_content_type()],
            data: json@,
            data_length: Some(json.len()),
        }),
{
    match reply.payload {
        Payload::Empty => empty_response_with_status(reply.status),
        _ => json_response_with_status(reply.status, json),
    }
}

} // verus!

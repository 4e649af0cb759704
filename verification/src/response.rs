//! The answers: status, headers and body.

use vstd::prelude::*;
use vstd::string::*;
use crate::decimal::{ascii, decimal, push_decimal};
use crate::range::{ByteRange, DeliveryOutcome};

verus! {

/// One header of an answer.
#[derive(PartialEq, Eq, Debug)]
pub struct Header {
    pub name: String,
    pub value: String,
}

/// An answer as it goes on the wire.
#[derive(PartialEq, Eq, Debug)]
pub struct Response {
    pub status: u16,
    pub headers: Vec<Header>,
    pub body: Vec<u8>,
}

/// What an answer holds: its status, its headers in their order, each a
/// name and a value, and its body.
pub struct ResponseView {
    pub status: u16,
    pub headers: Seq<(Seq<char>, Seq<char>)>,
    pub body: Seq<u8>,
}

impl View for Header {
    type V = (Seq<char>, Seq<char>);

    open spec fn view(&self) -> (Seq<char>, Seq<char>) {
        (self.name@, self.value@)
    }
}

impl View for Response {
    type V = ResponseView;

    open spec fn view(&self) -> ResponseView {
        ResponseView {
            status: self.status,
            headers: self.headers@.map_values(|h: Header| h@),
            body: self.body@,
        }
    }
}

/// A part of a resource that is to be read: `length` bytes from `offset` on.
#[derive(Clone, Copy, PartialEq, Eq, Debug)]
pub struct ReadSpan {
    pub offset: u64,
    pub length: u64,
}

/// An answer without headers whose body is a message in plain text.
pub open spec fn message(status: u16, text: Seq<char>) -> ResponseView {
    ResponseView { status, headers: Seq::empty(), body: ascii(text) }
}

/// The answer where there is no such resource.
pub open spec fn not_found() -> ResponseView {
    message(404, "Video not found"@)
}

/// The answer to a range that the resource cannot give.
pub open spec fn not_satisfiable() -> ResponseView {
    message(416, "Range Not Satisfiable"@)
}

/// The answer where the bytes of the resource could not be had.
pub open spec fn read_failed() -> ResponseView {
    message(500, "Failed to read video"@)
}

/// The answer that carries the whole resource.
pub open spec fn full_body(body: Seq<u8>) -> ResponseView {
    ResponseView { status: 200, headers: seq![("Accept-Ranges"@, "bytes"@)], body }
}

/// The value of the `Content-Range` header of a part: `bytes`, a space, the
/// first and the last byte of the part, divided by `-`, then `/` and the
/// length of the resource.
pub open spec fn content_range(range: ByteRange, size: u64) -> Seq<char> {
    "bytes "@ + decimal(range.start as nat) + "-"@ + decimal(range.end as nat) + "/"@ + decimal(
        size as nat,
    )
}

/// The answer that carries one part of a resource of `size` bytes.
pub open spec fn partial_body(range: ByteRange, size: u64, body: Seq<u8>) -> ResponseView {
    ResponseView {
        status: 206,
        headers: seq![
            ("Content-Range"@, content_range(range, size)),
            ("Accept-Ranges"@, "bytes"@),
            ("Content-Type"@, "video/mp4"@),
        ],
        body,
    }
}

/// The part of a resource of `size` bytes that an outcome needs: all of it
/// for the whole body, the range for a part within the resource, and
/// nothing otherwise.
pub open spec fn wanted(outcome: DeliveryOutcome, size: u64) -> Option<ReadSpan> {
    match outcome {
        DeliveryOutcome::FullBody => Some(ReadSpan { offset: 0, length: size }),
        DeliveryOutcome::PartialBody(range) => if range.within(size) {
            Some(ReadSpan { offset: range.start, length: range.span() as u64 })
        } else {
            None
        },
        _ => None,
    }
}

/// The answer to a request. `read` is what reading the wanted part of the
/// resource gave, `None` where the read failed. A missing resource and a
/// refused range are answered whatever was read. A body is sent only where
/// exactly the wanted bytes were read; any other outcome of the read is an
/// error of the server.
pub open spec fn response_for(
    outcome: DeliveryOutcome,
    size: u64,
    read: Option<Seq<u8>>,
) -> ResponseView {
    match outcome {
        DeliveryOutcome::NotFound => not_found(),
        DeliveryOutcome::NotSatisfiable => not_satisfiable(),
        DeliveryOutcome::FullBody => match read {
            Some(body) if body.len() == size => full_body(body),
            _ => read_failed(),
        },
        DeliveryOutcome::PartialBody(range) => match read {
            Some(body) if range.within(size) && body.len() == range.span() => partial_body(
                range,
                size,
                body,
            ),
            _ => read_failed(),
        },
    }
}

/// The bytes of a read that may have failed.
pub open spec fn read_bytes(read: Option<Vec<u8>>) -> Option<Seq<u8>> {
    match read {
        Some(bytes) => Some(bytes@),
        None => None,
    }
}

impl DeliveryOutcome {
    /// The part of a resource of `size` bytes that is to be read before
    /// the answer can be built.
    pub fn read_span(&self, size: u64) -> (span: Option<ReadSpan>)
        ensures
            span == wanted(*self, size),
            span matches Some(span) ==> span.offset + span.length <= size,
    {
        match self {
            DeliveryOutcome::FullBody => Some(ReadSpan { offset: 0, length: size }),
            DeliveryOutcome::PartialBody(range) => {
                if range.is_within(size) {
                    Some(ReadSpan { offset: range.start, length: range.length() })
                } else {
                    None
                }
            },
            _ => None,
        }
    }
}

/// Builds an answer without headers whose body is a message.
pub(crate) fn message_response(status: u16, text: &str) -> (response: Response)
    requires
        is_ascii(text),
    ensures
        response@ == message(status, text@),
{
    let body = text.as_bytes_vec();
    let response = Response { status, headers: Vec::new(), body };
    proof {
        is_ascii_spec_bytes(text);
        assert(response@.headers =~= Seq::empty());
    }
    response
}

/// Builds a header.
fn header(name: &str, value: String) -> (h: Header)
    ensures
        h@ == (name@, value@),
{
    Header { name: String::from_str(name), value }
}

/// Writes the value of the `Content-Range` header.
fn content_range_value(range: ByteRange, size: u64) -> (value: String)
    ensures
        value@ == content_range(range, size),
{
    let mut value = String::from_str("bytes ");
    push_decimal(&mut value, range.start);
    value.append("-");
    push_decimal(&mut value, range.end);
    value.append("/");
    push_decimal(&mut value, size);
    value
}

/// Builds the answer to a request for a resource of `size` bytes from the
/// outcome and from what reading the wanted part gave.
pub fn build_response(outcome: DeliveryOutcome, size: u64, read: Option<Vec<u8>>) -> (response:
    Response)
    ensures
        response@ == response_for(outcome, size, read_bytes(read)),
{
    proof {
        reveal_strlit("Video not found");
        reveal_strlit("Range Not Satisfiable");
        reveal_strlit("Failed to read video");
    }
    match outcome {
        DeliveryOutcome::NotFound => message_response(404, "Video not found"),
        DeliveryOutcome::NotSatisfiable => message_response(416, "Range Not Satisfiable"),
        DeliveryOutcome::FullBody => match read {
            Some(body) if body.len() as u64 == size => {
                let mut headers = Vec::new();
                headers.push(header("Accept-Ranges", String::from_str("bytes")));
                let response = Response { status: 200, headers, body };
                assert(response@.headers =~= full_body(body@).headers);
                response
            },
            _ => message_response(500, "Failed to read video"),
        },
        DeliveryOutcome::PartialBody(range) => match read {
            Some(body) if range.is_within(size) && body.len() as u64 == range.length() => {
                let mut headers = Vec::new();
                headers.push(header("Content-Range", content_range_value(range, size)));
                headers.push(header("Accept-Ranges", String::from_str("bytes")));
                headers.push(header("Content-Type", String::from_str("video/mp4")));
                let response = Response { status: 206, headers, body };
                assert(response@.headers =~= partial_body(range, size, body@).headers);
                response
            },
            _ => message_response(500, "Failed to read video"),
        },
    }
}

} // verus!

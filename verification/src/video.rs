//! Serving a video: from a request to its answer.
//!
//! A server that keeps its videos in files asks `select_for_request` how
//! to answer, reads the part that the outcome names, and hands what it read
//! to `build_response`. `serve_video` does the same for a resource that is
//! held in memory.

use vstd::prelude::*;
use crate::decimal::{ascii, decimal};
use crate::header::{
    RangeForm, lemma_open_span_is_read, lemma_span_is_read, lemma_suffix_is_read, requested_range,
};
use crate::range::{
    ByteRange, DeliveryOutcome, candidate_end, candidate_start, delivery, select_delivery,
    value_bytes,
};
use crate::response::{
    Header, Response, ResponseView, build_response, content_range, full_body, not_found,
    not_satisfiable, partial_body, response_for, wanted,
};
use crate::source::{read_exact_at, size};

verus! {

/// The answer to a request for a resource. `resource` holds the bytes of
/// the resource, `None` where there is no such resource, and `header` the
/// value of the `Range` header, `None` where the request has none.
pub open spec fn video_response(
    resource: Option<Seq<u8>>,
    header: Option<Seq<u8>>,
    chunk_size: u64,
) -> ResponseView {
    match resource {
        None => not_found(),
        Some(bytes) => match delivery(Some(bytes.len() as u64), header, chunk_size) {
            DeliveryOutcome::FullBody => full_body(bytes),
            DeliveryOutcome::PartialBody(range) => partial_body(
                range,
                bytes.len() as u64,
                bytes.subrange(range.start as int, range.end + 1),
            ),
            DeliveryOutcome::NotSatisfiable => not_satisfiable(),
            DeliveryOutcome::NotFound => not_found(),
        },
    }
}

/// The bytes of a resource that may be missing.
pub open spec fn resource_bytes(resource: Option<&[u8]>) -> Option<Seq<u8>> {
    match resource {
        Some(bytes) => Some(bytes@),
        None => None,
    }
}

/// Answers a request for a resource that is held in memory.
pub fn serve_video(resource: Option<&[u8]>, range_header: Option<&[u8]>, chunk_size: u64) -> (response:
    Response)
    ensures
        response@ == video_response(
            resource_bytes(resource),
            value_bytes(range_header),
            chunk_size,
        ),
{
    let bytes = match resource {
        Some(bytes) => bytes,
        None => {
            return build_response(DeliveryOutcome::NotFound, 0, None);
        },
    };
    let size = size(bytes);
    let outcome = select_delivery(Some(size), range_header, chunk_size);
    let read = match outcome.read_span(size) {
        Some(span) => read_exact_at(bytes, span.offset, span.length),
        None => None,
    };
    assert(bytes@.subrange(0, bytes@.len() as int) =~= bytes@);
    build_response(outcome, size, read)
}

/// A server that reads exactly the part that the outcome names, and builds
/// its answer from what it read, answers as `serve_video` does.
pub proof fn lemma_exact_read_is_served(
    resource: Seq<u8>,
    header: Option<Seq<u8>>,
    chunk_size: u64,
)
    requires
        resource.len() <= u64::MAX,
    ensures
        ({
            let size = resource.len() as u64;
            let outcome = delivery(Some(size), header, chunk_size);
            let read = match wanted(outcome, size) {
                Some(span) => Some(
                    resource.subrange(span.offset as int, span.offset + span.length),
                ),
                None => None,
            };
            &&& wanted(outcome, size) matches Some(span) ==> span.offset + span.length
                <= resource.len()
            &&& response_for(outcome, size, read) == video_response(
                Some(resource),
                header,
                chunk_size,
            )
        }),
{
    assert(resource.subrange(0, resource.len() as int) =~= resource);
}

/// A request for the bytes from `start` to `end` of a resource that holds
/// them is answered with status 206, with a `Content-Range` header that
/// names `start`, `end` and the length of the resource, and with exactly
/// those bytes of the resource as the body.
pub proof fn lemma_range_is_served(resource: Seq<u8>, start: u64, end: u64, chunk_size: u64)
    requires
        resource.len() <= u64::MAX,
        start <= end < resource.len(),
    ensures
        ({
            let header = ascii("bytes="@ + decimal(start as nat) + "-"@ + decimal(end as nat));
            let size = resource.len() as u64;
            let range = ByteRange { start, end };
            let response = video_response(Some(resource), Some(header), chunk_size);
            &&& delivery(Some(size), Some(header), chunk_size) == DeliveryOutcome::PartialBody(
                range,
            )
            &&& response == partial_body(range, size, resource.subrange(start as int, end + 1))
            &&& response.status == 206
            &&& response.headers[0] == ("Content-Range"@, content_range(range, size))
            &&& content_range(range, size) == "bytes "@ + decimal(start as nat) + "-"@ + decimal(
                end as nat,
            ) + "/"@ + decimal(resource.len())
            &&& response.body.len() == end - start + 1
            &&& forall|i: int|
                0 <= i < response.body.len() ==> response.body[i] == resource[start + i]
        }),
{
    let header = ascii("bytes="@ + decimal(start as nat) + "-"@ + decimal(end as nat));
    lemma_span_is_read(header, start, end);
}

/// A request for the last `length` bytes of a resource that holds at least
/// one byte and no fewer than `length` is answered with the range that
/// begins `length` bytes before the end of the resource and ends with it.
pub proof fn lemma_suffix_is_served(size: u64, length: u64, chunk_size: u64)
    requires
        0 < length <= size,
    ensures
        ({
            let header = ascii("bytes=-"@ + decimal(length as nat));
            let form = RangeForm::Suffix { length };
            &&& requested_range(header) == Some(form)
            &&& candidate_start(form, size) == size - length
            &&& candidate_end(form, size, chunk_size) == size - 1
            &&& delivery(Some(size), Some(header), chunk_size) == DeliveryOutcome::PartialBody(
                ByteRange { start: (size - length) as u64, end: (size - 1) as u64 },
            )
        }),
{
    lemma_suffix_is_read(ascii("bytes=-"@ + decimal(length as nat)), length);
}

/// A request for the bytes from `start` on, with `start` inside the
/// resource and a chunk of at least one byte, is answered with the range
/// that runs from `start` for one chunk, or to the end of the resource
/// where that comes first.
pub proof fn lemma_open_range_is_served(size: u64, start: u64, chunk_size: u64)
    requires
        start < size,
        chunk_size > 0,
    ensures
        ({
            let header = ascii("bytes="@ + decimal(start as nat) + "-"@);
            let end = if start + chunk_size < size {
                start + chunk_size - 1
            } else {
                size - 1
            };
            delivery(Some(size), Some(header), chunk_size) == DeliveryOutcome::PartialBody(
                ByteRange { start, end: end as u64 },
            )
        }),
{
    lemma_open_span_is_read(ascii("bytes="@ + decimal(start as nat) + "-"@), start);
}

/// A part is sent only of bytes that the resource holds: whatever the
/// request, the range of a partial body is not empty and ends inside the
/// resource. A resource that was found is never answered as missing.
pub proof fn lemma_part_lies_within(size: u64, header: Option<Seq<u8>>, chunk_size: u64)
    ensures
        delivery(Some(size), header, chunk_size).fits(size),
        delivery(Some(size), header, chunk_size) != DeliveryOutcome::NotFound,
{
}

/// A request without a `Range` header is answered with status 200, with
/// the header `Accept-Ranges: bytes` and with the whole resource as the
/// body.
pub proof fn lemma_whole_is_served(resource: Seq<u8>, chunk_size: u64)
    requires
        resource.len() <= u64::MAX,
    ensures
        ({
            let response = video_response(Some(resource), None, chunk_size);
            &&& delivery(Some(resource.len() as u64), None, chunk_size)
                == DeliveryOutcome::FullBody
            &&& response.status == 200
            &&& response.headers == seq![("Accept-Ranges"@, "bytes"@)]
            &&& response.body == resource
            &&& response.body.len() == resource.len()
        }),
{
}

/// A range whose end lies at or past the end of the resource is refused
/// with status 416, however the end was arrived at.
pub proof fn lemma_end_past_resource_is_refused(
    resource: Seq<u8>,
    header: Seq<u8>,
    chunk_size: u64,
)
    requires
        resource.len() <= u64::MAX,
        requested_range(header) matches Some(form) && candidate_end(
            form,
            resource.len() as u64,
            chunk_size,
        ) >= resource.len(),
    ensures
        delivery(Some(resource.len() as u64), Some(header), chunk_size)
            == DeliveryOutcome::NotSatisfiable,
        video_response(Some(resource), Some(header), chunk_size) == not_satisfiable(),
        video_response(Some(resource), Some(header), chunk_size).status == 416,
{
}

/// A range is refused with status 416 wherever its bounds make no range
/// within the resource: where one of them lies below zero, where the range
/// ends before it begins, and where it ends at or past the end of the
/// resource. Any other range is served.
pub proof fn lemma_refused_unless_within(resource: Seq<u8>, header: Seq<u8>, chunk_size: u64)
    requires
        resource.len() <= u64::MAX,
        requested_range(header) is Some,
    ensures
        ({
            let size = resource.len() as u64;
            let form = requested_range(header)->Some_0;
            let start = candidate_start(form, size);
            let end = candidate_end(form, size, chunk_size);
            let response = video_response(Some(resource), Some(header), chunk_size);
            if 0 <= start <= end < size {
                response.status == 206
            } else {
                response == not_satisfiable() && response.status == 416
            }
        }),
{
}

/// A request for a resource that is missing is answered with status 404,
/// whatever its `Range` header and whatever the chunk size.
pub proof fn lemma_missing_is_not_found(header: Option<Seq<u8>>, chunk_size: u64)
    ensures
        delivery(None, header, chunk_size) == DeliveryOutcome::NotFound,
        video_response(None, header, chunk_size) == not_found(),
        video_response(None, header, chunk_size).status == 404,
{
}

/// Two answers to the same request for the same resource are the same,
/// byte for byte.
pub proof fn lemma_same_request_same_answer(
    resource: Option<Seq<u8>>,
    header: Option<Seq<u8>>,
    chunk_size: u64,
    first: Response,
    second: Response,
)
    requires
        first@ == video_response(resource, header, chunk_size),
        second@ == video_response(resource, header, chunk_size),
    ensures
        first.status == second.status,
        first.headers@.map_values(|h: Header| h@) == second.headers@.map_values(|h: Header| h@),
        first.body@ == second.body@,
{
}

} // verus!

//! Byte ranges held against a resource, and the choice between the whole
//! body, a part of it and a refusal.

use vstd::prelude::*;
use vstd::math::min;
use crate::header::{RangeForm, requested_range, parse_range_header};

verus! {

/// A run of bytes of a resource, from `start` to `end`, both counted.
#[derive(Clone, Copy, PartialEq, Eq, Debug)]
pub struct ByteRange {
    pub start: u64,
    pub end: u64,
}

/// How a request for a resource is to be answered.
#[derive(Clone, Copy, PartialEq, Eq, Debug)]
pub enum DeliveryOutcome {
    /// The whole resource.
    FullBody,
    /// The bytes of one range.
    PartialBody(ByteRange),
    /// The request asks for bytes that the resource cannot give.
    NotSatisfiable,
    /// There is no such resource.
    NotFound,
}

impl ByteRange {
    /// The invariant of a range over a resource of `size` bytes: it is not
    /// empty and ends inside the resource.
    pub open spec fn within(self, size: u64) -> bool {
        self.start <= self.end < size
    }

    /// The number of bytes from `start` to `end`.
    pub open spec fn span(self) -> int {
        self.end - self.start + 1
    }

    /// Says whether the range lies within a resource of `size` bytes.
    pub fn is_within(&self, size: u64) -> (ok: bool)
        ensures
            ok == self.within(size),
    {
        self.start <= self.end && self.end < size
    }

    /// The number of bytes in the range.
    pub fn length(&self) -> (n: u64)
        requires
            self.start <= self.end,
            self.span() <= u64::MAX,
        ensures
            n == self.span(),
    {
        self.end - self.start + 1
    }
}

impl DeliveryOutcome {
    /// Whether a partial body, if this is one, lies within a resource of
    /// `size` bytes.
    pub open spec fn fits(self, size: u64) -> bool {
        self matches DeliveryOutcome::PartialBody(range) ==> range.within(size)
    }
}

/// Where a range begins in a resource of `size` bytes, before the range is
/// checked: a suffix begins its length before the end, and below zero
/// where it is longer than the resource.
pub open spec fn candidate_start(form: RangeForm, size: u64) -> int {
    match form {
        RangeForm::Suffix { length } => size - length,
        RangeForm::Span { start, .. } => start as int,
    }
}

/// Where a range ends in a resource of `size` bytes, before the range is
/// checked. A suffix ends with the resource. A range without an end runs
/// for one chunk, but not past the end of the resource.
pub open spec fn candidate_end(form: RangeForm, size: u64, chunk_size: u64) -> int {
    match form {
        RangeForm::Suffix { .. } => size - 1,
        RangeForm::Span { end: Some(end), .. } => end as int,
        RangeForm::Span { start, end: None } => min(start + chunk_size, size as int) - 1,
    }
}

/// The answer to a request for one range of a resource of `size` bytes: the
/// part, where its bounds make a range within the resource, and a refusal
/// where they do not.
pub open spec fn range_outcome(form: RangeForm, size: u64, chunk_size: u64) -> DeliveryOutcome {
    let start = candidate_start(form, size);
    let end = candidate_end(form, size, chunk_size);
    if 0 <= start <= end < size {
        DeliveryOutcome::PartialBody(ByteRange { start: start as u64, end: end as u64 })
    } else {
        DeliveryOutcome::NotSatisfiable
    }
}

/// The answer to a request: `size` is the length of the resource, `None`
/// where there is no such resource, and `header` the value of the `Range`
/// header, `None` where the request has none.
pub open spec fn delivery(
    size: Option<u64>,
    header: Option<Seq<u8>>,
    chunk_size: u64,
) -> DeliveryOutcome {
    match (size, header) {
        (None, _) => DeliveryOutcome::NotFound,
        (Some(_), None) => DeliveryOutcome::FullBody,
        (Some(size), Some(value)) => match requested_range(value) {
            None => DeliveryOutcome::FullBody,
            Some(form) => range_outcome(form, size, chunk_size),
        },
    }
}

/// The bytes of a header value that may be missing.
pub open spec fn value_bytes(header: Option<&[u8]>) -> Option<Seq<u8>> {
    match header {
        Some(value) => Some(value@),
        None => None,
    }
}

/// Computes the bounds of a range in a resource of `size` bytes. There are
/// none where a bound would lie below zero.
pub fn resolve_range(form: RangeForm, size: u64, chunk_size: u64) -> (candidate: Option<ByteRange>)
    ensures
        match candidate {
            Some(range) => range.start == candidate_start(form, size) && range.end
                == candidate_end(form, size, chunk_size),
            None => candidate_start(form, size) < 0 || candidate_end(form, size, chunk_size) < 0,
        },
{
    match form {
        RangeForm::Suffix { length } => {
            if length > size || size == 0 {
                None
            } else {
                Some(ByteRange { start: size - length, end: size - 1 })
            }
        },
        RangeForm::Span { start, end: Some(end) } => Some(ByteRange { start, end }),
        RangeForm::Span { start, end: None } => {
            let stop = if start >= size || chunk_size >= size - start {
                size
            } else {
                start + chunk_size
            };
            if stop == 0 {
                None
            } else {
                Some(ByteRange { start, end: stop - 1 })
            }
        },
    }
}

/// Checks the bounds of a range against a resource of `size` bytes. A
/// range that ends at or past the end of the resource is refused, and so is
/// one that ends before it begins.
pub fn validate_range(candidate: ByteRange, size: u64) -> (outcome: DeliveryOutcome)
    ensures
        candidate.within(size) ==> outcome == DeliveryOutcome::PartialBody(candidate),
        !candidate.within(size) ==> outcome == DeliveryOutcome::NotSatisfiable,
        candidate.end >= size ==> outcome == DeliveryOutcome::NotSatisfiable,
        outcome.fits(size),
{
    if candidate.is_within(size) {
        DeliveryOutcome::PartialBody(candidate)
    } else {
        DeliveryOutcome::NotSatisfiable
    }
}

/// Decides how to answer a request. `size` is the length of the resource,
/// `None` where it could not be found, and `range_header` the value of the
/// `Range` header, `None` where the request has none.
pub fn select_delivery(size: Option<u64>, range_header: Option<&[u8]>, chunk_size: u64) -> (outcome:
    DeliveryOutcome)
    ensures
        outcome == delivery(size, value_bytes(range_header), chunk_size),
        size matches Some(s) ==> outcome.fits(s),
{
    let size = match size {
        Some(size) => size,
        None => {
            return DeliveryOutcome::NotFound;
        },
    };
    let form = match range_header {
        Some(value) => parse_range_header(value),
        None => None,
    };
    match form {
        None => DeliveryOutcome::FullBody,
        Some(form) => match resolve_range(form, size, chunk_size) {
            Some(candidate) => validate_range(candidate, size),
            None => DeliveryOutcome::NotSatisfiable,
        },
    }
}

} // verus!

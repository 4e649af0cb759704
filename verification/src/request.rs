//! The headers of a request, as the `http` crate holds them.

use vstd::prelude::*;
use axum::http::header::{HeaderMap, HeaderValue, RANGE};
use crate::range::{DeliveryOutcome, delivery, select_delivery};

verus! {

/// `http::HeaderMap`: the headers of a request. Of what a map holds only
/// `range_values` speaks.
#[verifier::external_type_specification]
#[verifier::external_body]
#[verifier::reject_recursive_types(T)]
pub struct ExHeaderMap<T>(HeaderMap<T>);

/// `http::HeaderValue`: the value of one header.
#[verifier::external_type_specification]
#[verifier::external_body]
pub struct ExHeaderValue(HeaderValue);

/// The values that a header map holds under the name `Range`, each as its
/// bytes, the one that was added first at the head.
pub uninterp spec fn range_values(headers: HeaderMap<HeaderValue>) -> Seq<Seq<u8>>;

/// The value of the `Range` header of a request with these headers: the
/// first of them where there are several.
pub open spec fn range_header(headers: HeaderMap<HeaderValue>) -> Option<Seq<u8>> {
    if range_values(headers).len() > 0 {
        Some(range_values(headers)[0])
    } else {
        None
    }
}

/// Calls `HeaderMap::get` with the name `Range`, and `HeaderValue::as_bytes`
/// on what it finds. Not proved: that `get` gives the first value that the
/// map holds under the name, and `None` where it holds none; that `as_bytes`
/// gives the bytes of the value as they are.
#[verifier::external_body]
fn first_range_value(headers: &HeaderMap<HeaderValue>) -> (value: Option<&[u8]>)
    ensures
        match value {
            Some(bytes) => range_values(*headers).len() > 0 && bytes@ == range_values(*headers)[0],
            None => range_values(*headers).len() == 0,
        },
{
    match headers.get(RANGE) {
        Some(value) => Some(value.as_bytes()),
        None => None,
    }
}

/// Decides how to answer a request with these headers. `size` is the
/// length of the resource, `None` where it could not be found.
pub fn select_for_request(
    size: Option<u64>,
    headers: &HeaderMap<HeaderValue>,
    chunk_size: u64,
) -> (outcome: DeliveryOutcome)
    ensures
        outcome == delivery(size, range_header(*headers), chunk_size),
        size matches Some(s) ==> outcome.fits(s),
{
    select_delivery(size, first_range_value(headers), chunk_size)
}

} // verus!

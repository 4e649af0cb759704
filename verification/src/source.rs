//! A resource held in memory, as a source of bytes.

use vstd::prelude::*;
use vstd::slice::{slice_subrange, slice_to_vec};

verus! {

/// The length of a resource in bytes.
pub fn size(resource: &[u8]) -> (n: u64)
    ensures
        n == resource@.len(),
{
    resource.len() as u64
}

/// Reads exactly `length` bytes of a resource, from `offset` on. The read
/// fails where the resource does not hold that many bytes from there.
pub fn read_exact_at(resource: &[u8], offset: u64, length: u64) -> (bytes: Option<Vec<u8>>)
    ensures
        match bytes {
            Some(bytes) => offset + length <= resource@.len() && bytes@ == resource@.subrange(
                offset as int,
                offset + length,
            ),
            None => offset + length > resource@.len(),
        },
{
    let len: usize = resource.len();
    if offset > len as u64 || length > len as u64 - offset {
        return None;
    }
    let from = offset as usize;
    let to = (offset + length) as usize;
    Some(slice_to_vec(slice_subrange(resource, from, to)))
}

} // verus!

//! Body chunks as the transport hands them over.

use vstd::prelude::*;

verus! {

/// `bytes::Bytes`, a buffer of bytes that is cheap to hand on.
#[verifier::external_type_specification]
#[verifier::external_body]
pub struct ExBytes(bytes::Bytes);

/// The bytes that a `bytes::Bytes` holds, in order.
pub uninterp spec fn chunk_bytes(chunk: bytes::Bytes) -> Seq<u8>;

/// `bytes::Bytes::len` returns the number of bytes that the buffer holds.
pub assume_specification[ bytes::Bytes::len ](chunk: &bytes::Bytes) -> (n: usize)
    ensures
        n == chunk_bytes(*chunk).len(),
;

/// The number of bytes in `chunk`.
pub fn chunk_len(chunk: &bytes::Bytes) -> (n: u64)
    ensures
        n == chunk_bytes(*chunk).len(),
{
    chunk.len() as u64
}

} // verus!

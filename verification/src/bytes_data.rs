//! Contracts for the reference counted byte buffers of the `bytes` crate.

use bytes::Bytes;
use vstd::prelude::*;

verus! {

/// The buffer type of the `bytes` crate. Its contents are given by [`contents`].
#[verifier::external_type_specification]
#[verifier::external_body]
pub struct ExBytes(Bytes);

/// The bytes that a buffer holds.
pub uninterp spec fn contents(b: Bytes) -> Seq<u8>;

/// Calls `Bytes::len`: the number of bytes in the buffer.
#[verifier::external_body]
pub(crate) fn bytes_len(b: &Bytes) -> (n: usize)
    ensures
        n == contents(*b).len(),
{
    b.len()
}

/// Calls `Bytes::clone`: a second handle on the same bytes.
#[verifier::external_body]
pub(crate) fn bytes_clone(b: &Bytes) -> (r: Bytes)
    ensures
        contents(r) == contents(*b),
{
    b.clone()
}

/// Calls `Bytes::eq`: whether two buffers hold the same bytes.
#[verifier::external_body]
pub(crate) fn bytes_eq(a: &Bytes, b: &Bytes) -> (r: bool)
    ensures
        r == (contents(*a) == contents(*b)),
{
    a == b
}

/// Calls `Bytes::to_vec`: a copy of the bytes.
#[verifier::external_body]
pub(crate) fn bytes_to_vec(b: &Bytes) -> (v: Vec<u8>)
    ensures
        v@ == contents(*b),
{
    b.to_vec()
}

/// Calls `Bytes::from`: a buffer that holds the bytes of a vector.
#[verifier::external_body]
pub(crate) fn bytes_from_vec(v: Vec<u8>) -> (b: Bytes)
    ensures
        contents(b) == v@,
{
    Bytes::from(v)
}

/// The bytes of an optional buffer.
pub open spec fn opt_contents(b: Option<Bytes>) -> Option<Seq<u8>> {
    match b {
        Some(x) => Some(contents(x)),
        None => None,
    }
}

/// A second handle on the bytes of an optional buffer.
pub(crate) fn clone_opt_bytes(b: &Option<Bytes>) -> (r: Option<Bytes>)
    ensures
        opt_contents(r) == opt_contents(*b),
{
    match b {
        Some(x) => Some(bytes_clone(x)),
        None => None,
    }
}

} // verus!

//! Inline binary payloads (cue bitmaps, thumbnail images) held as
//! reference-counted `bytes::Bytes`.
use vstd::prelude::*;

verus! {

#[verifier::external_type_specification]
#[verifier::external_body]
pub struct ExBytes(bytes::Bytes);

/// The bytes a `Bytes` handle points at, in order.
pub uninterp spec fn bytes_contents(b: bytes::Bytes) -> Seq<u8>;

/// `Bytes::clone` hands out another handle on the same `ptr` / `len` window,
/// so the clone holds the same bytes.
pub assume_specification[ <bytes::Bytes as Clone>::clone ](b: &bytes::Bytes) -> (r: bytes::Bytes)
    ensures
        bytes_contents(r) == bytes_contents(*b),
;

/// An empty payload: `Bytes::new` holds no byte.
#[verifier::external_body]
pub(crate) fn bytes_empty() -> (b: bytes::Bytes)
    ensures
        bytes_contents(b) == Seq::<u8>::empty(),
{
    bytes::Bytes::new()
}

/// `Bytes::is_empty`: true iff the payload holds no byte.
#[verifier::external_body]
pub(crate) fn bytes_is_empty(b: &bytes::Bytes) -> (r: bool)
    ensures
        r == (bytes_contents(*b).len() == 0),
{
    b.is_empty()
}

/// The payload as a slice (`Bytes` dereferences to its bytes).
#[verifier::external_body]
pub(crate) fn bytes_as_slice<'a>(b: &'a bytes::Bytes) -> (r: &'a [u8])
    ensures
        r@ == bytes_contents(*b),
{
    b.as_ref()
}

} // verus!

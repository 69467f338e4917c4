//! Trusted boundary around the byte-buffer crate.
//!
//! Messages enter and leave the codec as `bytes::Bytes` buffers, and encoded
//! replies are assembled in a `bytes::BytesMut`. Both types are opaque to the
//! verifier, so their contents are named by uninterpreted spec functions and
//! every method the codec calls is wrapped with a contract taken from the
//! crate's documentation.
use vstd::prelude::*;

verus! {

#[verifier::external_type_specification]
#[verifier::external_body]
pub struct ExBytes(bytes::Bytes);

#[verifier::external_type_specification]
#[verifier::external_body]
pub struct ExBytesMut(bytes::BytesMut);

/// The byte sequence held by an immutable buffer.
pub uninterp spec fn bytes_content(b: bytes::Bytes) -> Seq<u8>;

/// The byte sequence held by a mutable buffer.
pub uninterp spec fn bytes_mut_content(b: bytes::BytesMut) -> Seq<u8>;

/// Relies on `Bytes`'s `AsRef<[u8]>` impl: the slice of all bytes held.
#[verifier::external_body]
pub fn bytes_as_slice(b: &bytes::Bytes) -> (s: &[u8])
    ensures
        s@ == bytes_content(*b),
{
    b.as_ref()
}

/// Relies on `BytesMut::with_capacity`: the new buffer contains no data.
#[verifier::external_body]
pub fn bytes_mut_with_capacity(capacity: usize) -> (b: bytes::BytesMut)
    ensures
        bytes_mut_content(b) == Seq::<u8>::empty(),
{
    bytes::BytesMut::with_capacity(capacity)
}

/// Relies on `BufMut::put_u16` for `BytesMut`: appends the two bytes of `v`
/// in big-endian order, growing the buffer as needed.
#[verifier::external_body]
pub fn bytes_mut_put_u16(b: &mut bytes::BytesMut, v: u16)
    requires
        bytes_mut_content(*old(b)).len() + 2 <= usize::MAX,
    ensures
        bytes_mut_content(*final(b)) == bytes_mut_content(*old(b)) + seq![
            (v >> 8) as u8,
            v as u8,
        ],
{
    bytes::BufMut::put_u16(b, v)
}

/// Relies on `BytesMut::freeze`: converts the buffer without changing its
/// contents.
#[verifier::external_body]
pub fn bytes_mut_freeze(b: bytes::BytesMut) -> (r: bytes::Bytes)
    ensures
        bytes_content(r) == bytes_mut_content(b),
{
    b.freeze()
}

} // verus!

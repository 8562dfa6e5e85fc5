//! The byte buffers of the `bytes` crate.
use vstd::prelude::*;

verus! {

/// The growable buffer of the `bytes` crate.
#[verifier::external_type_specification]
#[verifier::external_body]
pub struct ExBytesMut(bytes::BytesMut);

/// The shared buffer of the `bytes` crate.
#[verifier::external_type_specification]
#[verifier::external_body]
pub struct ExBytes(bytes::Bytes);

/// The bytes that a growable buffer holds.
pub uninterp spec fn buffered(buf: bytes::BytesMut) -> Seq<u8>;

/// The bytes that a shared buffer holds.
pub uninterp spec fn shared(buf: bytes::Bytes) -> Seq<u8>;

/// `bytes::BytesMut::new`: a buffer that holds nothing.
#[verifier::external_body]
pub(crate) fn new_buffer() -> (buf: bytes::BytesMut)
    ensures
        buffered(buf) == Seq::<u8>::empty(),
{
    bytes::BytesMut::new()
}

/// `bytes::BytesMut::with_capacity`: a buffer that holds nothing. The memory it
/// starts with is not stated. It must be an amount that can be asked for.
#[verifier::external_body]
pub(crate) fn new_buffer_for(capacity: usize) -> (buf: bytes::BytesMut)
    requires
        capacity <= isize::MAX,
    ensures
        buffered(buf) == Seq::<u8>::empty(),
{
    bytes::BytesMut::with_capacity(capacity)
}

/// `bytes::BytesMut::extend_from_slice`: the bytes go to the end of the buffer. The
/// new length must be an amount of memory that can be asked for.
#[verifier::external_body]
pub(crate) fn extend_buffer(buf: &mut bytes::BytesMut, data: &[u8])
    requires
        buffered(*old(buf)).len() + data@.len() <= isize::MAX,
    ensures
        buffered(*final(buf)) == buffered(*old(buf)) + data@,
{
    buf.extend_from_slice(data)
}

/// `bytes::BytesMut::clear`: the buffer holds nothing afterwards.
#[verifier::external_body]
pub(crate) fn clear_buffer(buf: &mut bytes::BytesMut)
    ensures
        buffered(*final(buf)) == Seq::<u8>::empty(),
{
    buf.clear()
}

/// `bytes::BytesMut::reserve`: makes room and leaves the contents as they are.
#[verifier::external_body]
pub(crate) fn reserve_buffer(buf: &mut bytes::BytesMut, additional: usize)
    requires
        buffered(*old(buf)).len() + additional <= isize::MAX,
    ensures
        buffered(*final(buf)) == buffered(*old(buf)),
{
    buf.reserve(additional)
}

/// `bytes::BytesMut` as a slice, through its `AsRef<[u8]>`: the bytes it holds.
#[verifier::external_body]
pub(crate) fn buffer_slice(buf: &bytes::BytesMut) -> (r: &[u8])
    ensures
        r@ == buffered(*buf),
{
    buf.as_ref()
}

/// `bytes::Bytes::from` on a vector: a shared buffer that holds the vector's bytes.
#[verifier::external_body]
pub(crate) fn share(data: Vec<u8>) -> (r: bytes::Bytes)
    ensures
        shared(r) == data@,
{
    bytes::Bytes::from(data)
}

/// `bytes::Bytes` as a slice, through its `AsRef<[u8]>`: the bytes it holds.
#[verifier::external_body]
pub(crate) fn shared_slice(buf: &bytes::Bytes) -> (r: &[u8])
    ensures
        r@ == shared(*buf),
{
    buf.as_ref()
}

/// The contents of each shared buffer.
pub open spec fn shared_all(v: Seq<bytes::Bytes>) -> Seq<Seq<u8>> {
    v.map_values(|b: bytes::Bytes| shared(b))
}

/// A copy of the bytes that the buffer holds.
pub(crate) fn buffer_to_vec(buf: &bytes::BytesMut) -> (r: Vec<u8>)
    ensures
        r@ == buffered(*buf),
{
    let mut r: Vec<u8> = Vec::new();
    r.extend_from_slice(buffer_slice(buf));
    assert(r@ =~= buffered(*buf));
    r
}

} // verus!

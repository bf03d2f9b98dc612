//! The byte buffer that frames are read from and written to.
//!
//! `BytesMut` is not verified here. Its contents are given the name
//! [`buffer_bytes`], and the few calls the codec makes are stated over it.

use tokio_util::bytes::{Buf, BufMut, BytesMut};
use vstd::prelude::*;

verus! {

#[verifier::external_type_specification]
#[verifier::external_body]
pub struct ExBytesMut(BytesMut);

/// The bytes a buffer holds, front first.
pub uninterp spec fn buffer_bytes(buf: BytesMut) -> Seq<u8>;

/// `BytesMut` dereferenced to a slice: the whole contents, borrowed.
#[verifier::external_body]
pub(crate) fn buffer_slice(buf: &BytesMut) -> (r: &[u8])
    ensures
        r@ == buffer_bytes(*buf),
{
    &buf[..]
}

/// `Buf::advance` on `BytesMut`: drops the first `n` bytes and keeps the
/// others in place. The call panics when `n` exceeds what is held, so that
/// is required not to happen.
#[verifier::external_body]
pub(crate) fn buffer_advance(buf: &mut BytesMut, n: usize)
    requires
        n <= buffer_bytes(*old(buf)).len(),
    ensures
        buffer_bytes(*final(buf)) == buffer_bytes(*old(buf)).skip(n as int),
{
    buf.advance(n);
}

/// `BufMut::put_slice` on `BytesMut`: appends `bytes` behind what is held.
#[verifier::external_body]
pub(crate) fn buffer_put(buf: &mut BytesMut, bytes: &[u8])
    ensures
        buffer_bytes(*final(buf)) == buffer_bytes(*old(buf)) + bytes@,
{
    buf.put_slice(bytes);
}

} // verus!

//! The caller-owned byte buffer the transport appends to. The codec works on
//! `bytes::BytesMut`, which Verus cannot look into, so the buffer's contents
//! are named by an uninterpreted view and every operation the codec needs is a
//! small trusted wrapper whose contract states what the crate's source shows.

use vstd::prelude::*;

use bytes::BytesMut;

verus! {

#[verifier::external_type_specification]
#[verifier::external_body]
pub struct ExBytesMut(BytesMut);

/// The bytes a `BytesMut` holds, front first.
pub uninterp spec fn buf_contents(b: BytesMut) -> Seq<u8>;

/// Relies on bytes::BytesMut::len: the number of bytes the buffer holds.
#[verifier::external_body]
pub(crate) fn buf_len(b: &BytesMut) -> (r: usize)
    ensures
        r == buf_contents(*b).len(),
{
    b.len()
}

/// Relies on the slice view of bytes::BytesMut (Deref to `[u8]`): byte `i` of
/// the buffer. Indexing past the length would panic, so it is ruled out.
#[verifier::external_body]
pub(crate) fn buf_byte(b: &BytesMut, i: usize) -> (r: u8)
    requires
        i < buf_contents(*b).len(),
    ensures
        r == buf_contents(*b)[i as int],
{
    b[i]
}

/// Relies on bytes::BytesMut::split_to: removes the first `n` bytes from the
/// buffer and returns them; the remainder stays buffered. `split_to` panics
/// when `n` exceeds the length, so that is ruled out.
#[verifier::external_body]
pub(crate) fn buf_split_to(b: &mut BytesMut, n: usize) -> (r: Vec<u8>)
    requires
        n <= buf_contents(*old(b)).len(),
    ensures
        r@ == buf_contents(*old(b)).take(n as int),
        buf_contents(*final(b)) == buf_contents(*old(b)).skip(n as int),
{
    b.split_to(n).as_ref().to_vec()
}

/// Relies on bytes::BytesMut::extend_from_slice: appends the given bytes to
/// the buffer, reserving capacity as needed.
#[verifier::external_body]
pub(crate) fn buf_put_slice(b: &mut BytesMut, s: &[u8])
    ensures
        buf_contents(*final(b)) == buf_contents(*old(b)) + s@,
{
    b.extend_from_slice(s);
}

} // verus!

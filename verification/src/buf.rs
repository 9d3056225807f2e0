//! Byte buffers: what the crate uses of `bytes` and `byteorder`.

use byteorder::{BigEndian, ByteOrder};
use bytes::{BufMut, Bytes, BytesMut};
use vstd::prelude::*;

verus! {

#[verifier::external_type_specification]
#[verifier::external_body]
pub struct ExBytes(bytes::Bytes);

#[verifier::external_type_specification]
#[verifier::external_body]
pub struct ExBytesMut(bytes::BytesMut);

/// The bytes that a `Bytes` handle holds, in order.
pub uninterp spec fn bytes_contents(b: Bytes) -> Seq<u8>;

/// The bytes that have been put into a `BytesMut`, in order. Spare capacity is not part of them.
pub uninterp spec fn buffer_contents(b: BytesMut) -> Seq<u8>;

/// The capacity that a `BytesMut` was made with. What it has allocated may be more.
pub uninterp spec fn made_capacity(b: BytesMut) -> nat;

/// The number `n` in three bytes, most significant first.
pub open spec fn be24(n: int) -> Seq<u8> {
    seq![(n / 0x1_0000 % 0x100) as u8, (n / 0x100 % 0x100) as u8, (n % 0x100) as u8]
}

/// The number `n` in four bytes, most significant first.
pub open spec fn be32(n: int) -> Seq<u8> {
    seq![(n / 0x100_0000 % 0x100) as u8] + be24(n)
}

/// What is appended in two steps can be appended in one.
pub(crate) proof fn concat_assoc(a: Seq<u8>, b: Seq<u8>, c: Seq<u8>)
    ensures
        a + b + c == a + (b + c),
{
    assert(a + b + c =~= a + (b + c));
}

/// `Bytes::deref`: the slice holds exactly the bytes of the handle.
#[verifier::external_body]
pub(crate) fn bytes_slice(b: &Bytes) -> (r: &[u8])
    ensures
        r@ == bytes_contents(*b),
{
    &b[..]
}

/// `BytesMut::with_capacity`: the new buffer is empty, and was made with this capacity. What it can
/// take beyond that before it grows is left to the allocator.
#[verifier::external_body]
pub(crate) fn new_buffer(capacity: usize) -> (r: BytesMut)
    requires
        capacity <= isize::MAX,
    ensures
        buffer_contents(r) == Seq::<u8>::empty(),
        made_capacity(r) == capacity,
{
    BytesMut::with_capacity(capacity)
}

/// `BytesMut::len`: the number of bytes put into the buffer.
#[verifier::external_body]
pub(crate) fn buffer_len(b: &BytesMut) -> (r: usize)
    ensures
        r == buffer_contents(*b).len(),
{
    b.len()
}

/// `BytesMut::extend_from_slice`: the slice is appended, and the buffer grows where it has to. An
/// allocation cannot exceed `isize::MAX` bytes.
#[verifier::external_body]
pub(crate) fn extend_from_slice(dst: &mut BytesMut, src: &[u8])
    requires
        buffer_contents(*old(dst)).len() + src@.len() <= isize::MAX,
    ensures
        buffer_contents(*final(dst)) == buffer_contents(*old(dst)) + src@,
        made_capacity(*final(dst)) == made_capacity(*old(dst)),
{
    dst.extend_from_slice(src)
}

/// `BytesMut::clear`: the buffer is emptied, and keeps its capacity.
#[verifier::external_body]
pub(crate) fn clear_buffer(dst: &mut BytesMut)
    ensures
        buffer_contents(*final(dst)) == Seq::<u8>::empty(),
        made_capacity(*final(dst)) == made_capacity(*old(dst)),
{
    dst.clear()
}

/// `BufMut::remaining_mut` of a `BytesMut`: how many more bytes fit without growing. With what is
/// in the buffer, they are at least the capacity that it was made with, as a buffer that grows
/// never gives capacity up; and they fit into an allocation. How many they are beyond that is up to
/// the allocator.
#[verifier::external_body]
pub(crate) fn spare_capacity(b: &BytesMut) -> (r: usize)
    ensures
        made_capacity(*b) <= buffer_contents(*b).len() + r <= isize::MAX,
{
    b.remaining_mut()
}

/// `BytesMut::deref`: the slice holds exactly the bytes that have been put into the buffer.
#[verifier::external_body]
pub(crate) fn buffer_slice(b: &BytesMut) -> (r: &[u8])
    ensures
        r@ == buffer_contents(*b),
{
    &b[..]
}

/// `BigEndian::write_uint` of `byteorder`, on the three bytes of the buffer at `pos`: they become
/// the number, most significant byte first, and the rest of the buffer stays.
#[verifier::external_body]
pub(crate) fn write_be24(dst: &mut BytesMut, pos: usize, n: u64)
    requires
        pos + 3 <= buffer_contents(*old(dst)).len(),
        n < 0x100_0000,
    ensures
        buffer_contents(*final(dst)) == buffer_contents(*old(dst)).take(pos as int) + be24(n as int)
            + buffer_contents(*old(dst)).skip(pos + 3),
        made_capacity(*final(dst)) == made_capacity(*old(dst)),
{
    BigEndian::write_uint(&mut dst[pos..pos + 3], n, 3)
}

/// `BytesMut::deref_mut`, at one byte of the buffer: it becomes this one, and the rest stays.
#[verifier::external_body]
pub(crate) fn write_u8(dst: &mut BytesMut, pos: usize, b: u8)
    requires
        pos < buffer_contents(*old(dst)).len(),
    ensures
        buffer_contents(*final(dst)) == buffer_contents(*old(dst)).update(pos as int, b),
        made_capacity(*final(dst)) == made_capacity(*old(dst)),
{
    dst[pos] = b
}

/// Appends a number in four bytes, most significant first.
pub(crate) fn put_be32(dst: &mut BytesMut, n: u32)
    requires
        buffer_contents(*old(dst)).len() + 4 <= isize::MAX,
    ensures
        buffer_contents(*final(dst)) == buffer_contents(*old(dst)) + be32(n as int),
        made_capacity(*final(dst)) == made_capacity(*old(dst)),
{
    let bytes: [u8; 4] = [
        (n / 0x100_0000 % 0x100) as u8,
        (n / 0x1_0000 % 0x100) as u8,
        (n / 0x100 % 0x100) as u8,
        (n % 0x100) as u8,
    ];
    assert(bytes@ =~= be32(n as int));
    extend_from_slice(dst, bytes.as_slice());
}

} // verus!

use bytes::BufMut;
use bytes::BytesMut;
use vstd::prelude::*;

verus! {

/// Big-endian bytes of a 16-bit value.
pub open spec fn be16(n: u16) -> Seq<u8> {
    seq![(n / 0x100) as u8, (n % 0x100) as u8]
}

/// Big-endian bytes of a 32-bit value.
pub open spec fn be32(n: u32) -> Seq<u8> {
    seq![
        (n / 0x100_0000) as u8,
        ((n / 0x1_0000) % 0x100) as u8,
        ((n / 0x100) % 0x100) as u8,
        (n % 0x100) as u8,
    ]
}

/// The 16-bit value of two big-endian bytes.
pub open spec fn read_be16(s: Seq<u8>, at: int) -> u16 {
    (s[at] * 0x100 + s[at + 1]) as u16
}

/// The 32-bit value of four big-endian bytes.
pub open spec fn read_be32(s: Seq<u8>, at: int) -> u32 {
    (s[at] * 0x100_0000 + s[at + 1] * 0x1_0000 + s[at + 2] * 0x100 + s[at + 3]) as u32
}

pub proof fn lemma_be16_read(n: u16)
    ensures
        read_be16(be16(n), 0) == n,
{
    assert(((n / 0x100) as u8) * 0x100 + ((n % 0x100) as u8) == n) by (nonlinear_arith);
}

pub proof fn lemma_be32_read(n: u32)
    ensures
        read_be32(be32(n), 0) == n,
{
    let a = n / 0x100_0000;
    let b = (n / 0x1_0000) % 0x100;
    let c = (n / 0x100) % 0x100;
    let d = n % 0x100;
    assert(a * 0x100_0000 + b * 0x1_0000 + c * 0x100 + d == n) by (nonlinear_arith)
        requires
            a == n / 0x100_0000,
            b == (n / 0x1_0000) % 0x100,
            c == (n / 0x100) % 0x100,
            d == n % 0x100,
            n <= 0xFFFF_FFFF,
            n >= 0,
    ;
}

#[verifier::external_type_specification]
#[verifier::external_body]
pub struct ExBytesMut(BytesMut);

/// What a `BytesMut` holds, front to back.
pub uninterp spec fn buffer_bytes(b: BytesMut) -> Seq<u8>;

/// Relies on bytes::BytesMut::new: the new buffer is empty.
#[verifier::external_body]
pub(crate) fn buffer_new() -> (r: BytesMut)
    ensures
        buffer_bytes(r) == Seq::<u8>::empty(),
{
    BytesMut::new()
}

/// Relies on BufMut::put_u8 of bytes::BytesMut: appends the byte.
#[verifier::external_body]
pub(crate) fn buffer_put_u8(b: &mut BytesMut, n: u8)
    requires
        buffer_bytes(*old(b)).len() + 1 <= isize::MAX,
    ensures
        buffer_bytes(*final(b)) == buffer_bytes(*old(b)).push(n),
{
    b.put_u8(n)
}

/// Relies on BufMut::put_u16 of bytes::BytesMut: appends the value big-endian.
#[verifier::external_body]
pub(crate) fn buffer_put_u16(b: &mut BytesMut, n: u16)
    requires
        buffer_bytes(*old(b)).len() + 2 <= isize::MAX,
    ensures
        buffer_bytes(*final(b)) == buffer_bytes(*old(b)) + be16(n),
{
    b.put_u16(n)
}

/// Relies on BufMut::put_u32 of bytes::BytesMut: appends the value big-endian.
#[verifier::external_body]
pub(crate) fn buffer_put_u32(b: &mut BytesMut, n: u32)
    requires
        buffer_bytes(*old(b)).len() + 4 <= isize::MAX,
    ensures
        buffer_bytes(*final(b)) == buffer_bytes(*old(b)) + be32(n),
{
    b.put_u32(n)
}

/// Relies on BufMut::put_slice of bytes::BytesMut: appends the bytes in order.
#[verifier::external_body]
pub(crate) fn buffer_put_slice(b: &mut BytesMut, s: &[u8])
    requires
        buffer_bytes(*old(b)).len() + s@.len() <= isize::MAX,
    ensures
        buffer_bytes(*final(b)) == buffer_bytes(*old(b)) + s@,
{
    b.put_slice(s)
}

} // verus!

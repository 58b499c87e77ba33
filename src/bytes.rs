use vstd::prelude::*;

verus! {

/// The unsigned integer stored big-endian in the first four bytes of `b`.
pub open spec fn be_u32(b: Seq<u8>) -> u32 {
    (b[0] as int * 0x100_0000 + b[1] as int * 0x1_0000 + b[2] as int * 0x100 + b[3] as int) as u32
}

/// The unsigned integer stored big-endian in the first eight bytes of `b`.
pub open spec fn be_u64(b: Seq<u8>) -> u64 {
    (be_u32(b) as int * 0x1_0000_0000 + be_u32(b.subrange(4, 8)) as int) as u64
}

/// Relies on byteorder's `BigEndian::read_u32`: the first four bytes of `b`,
/// most significant first. It panics on fewer than four bytes.
#[verifier::external_body]
pub(crate) fn read_be_u32(b: &[u8]) -> (r: u32)
    requires
        b@.len() >= 4,
    ensures
        r == be_u32(b@),
{
    <byteorder::BigEndian as byteorder::ByteOrder>::read_u32(b)
}

/// Relies on byteorder's `BigEndian::read_u64`: the first eight bytes of `b`,
/// most significant first. It panics on fewer than eight bytes.
#[verifier::external_body]
pub(crate) fn read_be_u64(b: &[u8]) -> (r: u64)
    requires
        b@.len() >= 8,
    ensures
        r == be_u64(b@),
{
    <byteorder::BigEndian as byteorder::ByteOrder>::read_u64(b)
}

} // verus!

//! Little-endian byte order and byte buffers.

use vstd::prelude::*;

verus! {

/// A 16-bit value as two bytes, least significant first.
pub open spec fn le16(x: u16) -> Seq<u8> {
    seq![(x % 256) as u8, (x / 256) as u8]
}

/// A 32-bit value as four bytes, least significant first.
pub open spec fn le32(x: u32) -> Seq<u8> {
    seq![
        (x % 256) as u8,
        (x / 256 % 256) as u8,
        (x / 65536 % 256) as u8,
        (x / 16777216) as u8,
    ]
}

/// The two little-endian bytes of `x`.
pub fn u16_bytes(x: u16) -> (bytes: [u8; 2])
    ensures
        bytes@ == le16(x),
{
    let bytes: [u8; 2] = [(x % 256) as u8, (x / 256) as u8];
    assert(bytes@ =~= le16(x));
    bytes
}

/// The four little-endian bytes of `x`.
pub fn u32_bytes(x: u32) -> (bytes: [u8; 4])
    ensures
        bytes@ == le32(x),
{
    let bytes: [u8; 4] = [
        (x % 256) as u8,
        (x / 256 % 256) as u8,
        (x / 65536 % 256) as u8,
        (x / 16777216) as u8,
    ];
    assert(bytes@ =~= le32(x));
    bytes
}

/// The 16-bit value whose low byte is `low` and whose high byte is `high`.
pub open spec fn spec_u16_le(low: u8, high: u8) -> u16 {
    (low + 256 * high) as u16
}

/// The 32-bit value of four bytes, least significant first.
pub open spec fn spec_u32_le(b0: u8, b1: u8, b2: u8, b3: u8) -> u32 {
    (b0 + 256 * b1 + 65536 * b2 + 16777216 * b3) as u32
}

/// Reads a 16-bit value from its two bytes, low byte first.
pub fn u16_from_le(low: u8, high: u8) -> (value: u16)
    ensures
        value == spec_u16_le(low, high),
{
    low as u16 + 256 * (high as u16)
}

/// Reads a 32-bit value from its four bytes, least significant first.
pub fn u32_from_le(b0: u8, b1: u8, b2: u8, b3: u8) -> (value: u32)
    ensures
        value == spec_u32_le(b0, b1, b2, b3),
{
    b0 as u32 + 256 * (b1 as u32) + 65536 * (b2 as u32) + 16777216 * (b3 as u32)
}

/// Reading the bytes that were written gives the value back.
pub proof fn lemma_le16_round_trip(x: u16)
    ensures
        le16(x).len() == 2,
        spec_u16_le(le16(x)[0], le16(x)[1]) == x,
{
}

/// Reading the bytes that were written gives the value back.
pub proof fn lemma_le32_round_trip(x: u32)
    ensures
        le32(x).len() == 4,
        spec_u32_le(le32(x)[0], le32(x)[1], le32(x)[2], le32(x)[3]) == x,
{
}

/// Appends `bytes` to `buffer`.
pub fn append_bytes(buffer: &mut Vec<u8>, bytes: &[u8])
    ensures
        final(buffer)@ == old(buffer)@ + bytes@,
{
    let mut i: usize = 0;
    while i < bytes.len()
        invariant
            i <= bytes.len(),
            buffer@ == old(buffer)@ + bytes@.take(i as int),
        decreases bytes.len() - i,
    {
        buffer.push(bytes[i]);
        i += 1;
    }
    proof {
        assert(bytes@.take(i as int) =~= bytes@);
    }
}

/// A vector that holds the bytes of `bytes`.
pub fn copy_bytes(bytes: &[u8]) -> (copy: Vec<u8>)
    ensures
        copy@ == bytes@,
{
    let mut copy: Vec<u8> = Vec::new();
    append_bytes(&mut copy, bytes);
    copy
}

} // verus!

//! Bytes of a DWORD, in either byte order.

use vstd::prelude::*;

verus! {

/// Byte `i` of a DWORD, counted from the least significant one.
pub open spec fn dword_byte(value: u32, i: int) -> u8 {
    ((value >> ((8 * i) as u32)) & 0xff) as u8
}

/// The four bytes of a DWORD, least significant first.
pub open spec fn le_bytes(value: u32) -> Seq<u8> {
    Seq::new(4, |i: int| dword_byte(value, i))
}

/// The four bytes of a DWORD, most significant first.
pub open spec fn be_bytes(value: u32) -> Seq<u8> {
    Seq::new(4, |i: int| dword_byte(value, 3 - i))
}

/// The DWORD that a little-endian byte string denotes. Bytes beyond the
/// fourth fall off the top.
pub open spec fn le_dword(bytes: Seq<u8>) -> u32
    decreases bytes.len(),
{
    if bytes.len() == 0 {
        0
    } else {
        (le_dword(bytes.drop_first()) << 8) | (bytes[0] as u32)
    }
}

/// Byte `i` of `value`, counted from the least significant one.
pub fn byte_at(value: u32, i: usize) -> (byte: u8)
    requires
        i < 4,
    ensures
        byte == dword_byte(value, i as int),
{
    let shift: u32 = 8 * (i as u32);
    let low: u32 = (value >> shift) & 0xff;
    assert(low <= 0xff) by (bit_vector)
        requires
            low == (value >> shift) & 0xff,
    ;
    low as u8
}

/// The first `len` bytes of `value` in little-endian order.
pub fn le_bytes_prefix(value: u32, len: usize) -> (bytes: Vec<u8>)
    requires
        len <= 4,
    ensures
        bytes@ == le_bytes(value).subrange(0, len as int),
{
    let mut bytes: Vec<u8> = Vec::new();
    let mut i: usize = 0;
    while i < len
        invariant
            i <= len <= 4,
            bytes@ == le_bytes(value).subrange(0, i as int),
        decreases len - i,
    {
        bytes.push(byte_at(value, i));
        i = i + 1;
    }
    bytes
}

/// The bytes of `value` in big-endian order from position `from` up to,
/// not including, position `to`.
pub fn be_bytes_range(value: u32, from: usize, to: usize) -> (bytes: Vec<u8>)
    requires
        from <= to <= 4,
    ensures
        bytes@ == be_bytes(value).subrange(from as int, to as int),
{
    let mut bytes: Vec<u8> = Vec::new();
    let mut i: usize = from;
    while i < to
        invariant
            from <= i <= to <= 4,
            bytes@ == be_bytes(value).subrange(from as int, i as int),
        decreases to - i,
    {
        bytes.push(byte_at(value, 3 - i));
        i = i + 1;
    }
    bytes
}

/// The DWORD that `bytes` denotes in little-endian order.
pub fn dword_from_le(bytes: &[u8]) -> (value: u32)
    ensures
        value == le_dword(bytes@),
{
    let mut value: u32 = 0;
    let mut i: usize = bytes.len();
    assert(bytes@.subrange(bytes@.len() as int, bytes@.len() as int) =~= Seq::<u8>::empty());
    while i > 0
        invariant
            i <= bytes@.len(),
            value == le_dword(bytes@.subrange(i as int, bytes@.len() as int)),
        decreases i,
    {
        i = i - 1;
        proof {
            let tail = bytes@.subrange(i as int, bytes@.len() as int);
            assert(tail.drop_first() =~= bytes@.subrange(i + 1, bytes@.len() as int));
            assert(tail[0] == bytes@[i as int]);
        }
        value = (value << 8) | (bytes[i] as u32);
    }
    assert(bytes@.subrange(0, bytes@.len() as int) =~= bytes@);
    value
}

/// Four bytes in little-endian order denote the DWORD whose bytes they are.
pub proof fn lemma_le_dword_of_le_bytes(value: u32)
    ensures
        le_dword(le_bytes(value)) == value,
{
    let b = le_bytes(value);
    let b1 = b.drop_first();
    let b2 = b1.drop_first();
    let b3 = b2.drop_first();
    let b4 = b3.drop_first();
    assert(b4.len() == 0);
    assert(le_dword(b4) == 0);
    assert(le_dword(b3) == (0u32 << 8) | (b[3] as u32));
    assert(le_dword(b2) == (le_dword(b3) << 8) | (b[2] as u32));
    assert(le_dword(b1) == (le_dword(b2) << 8) | (b[1] as u32));
    assert(le_dword(b) == (le_dword(b1) << 8) | (b[0] as u32));
    let (c0, c1, c2, c3) = (b[0], b[1], b[2], b[3]);
    assert(c0 == ((value >> 0u32) & 0xff) as u8);
    assert(c1 == ((value >> 8u32) & 0xff) as u8);
    assert(c2 == ((value >> 16u32) & 0xff) as u8);
    assert(c3 == ((value >> 24u32) & 0xff) as u8);
    assert((((((((0u32 << 8) | (c3 as u32)) << 8) | (c2 as u32)) << 8) | (c1 as u32)) << 8) | (c0 as u32)
        == value) by (bit_vector)
        requires
            c0 == ((value >> 0u32) & 0xff) as u8,
            c1 == ((value >> 8u32) & 0xff) as u8,
            c2 == ((value >> 16u32) & 0xff) as u8,
            c3 == ((value >> 24u32) & 0xff) as u8,
    ;
}

} // verus!

//! Reading of big-endian numbers, bit fields and fixed-size addresses out of
//! a byte buffer.
use vstd::prelude::*;

verus! {

/// The number that the two bytes at `offset` spell, most significant first.
pub open spec fn be16(bytes: Seq<u8>, offset: int) -> int
    recommends
        0 <= offset,
        offset + 2 <= bytes.len(),
{
    bytes[offset] as int * 256 + bytes[offset + 1] as int
}

/// The number that the four bytes at `offset` spell, most significant first.
pub open spec fn be32(bytes: Seq<u8>, offset: int) -> int
    recommends
        0 <= offset,
        offset + 4 <= bytes.len(),
{
    be16(bytes, offset) * 65536 + be16(bytes, offset + 2)
}

/// `byte` with its lowest `low` bits dropped.
pub open spec fn shifted_down(byte: u8, low: nat) -> int
    recommends
        low < 8,
{
    if low == 0 {
        byte as int
    } else if low == 1 {
        byte as int / 2
    } else if low == 2 {
        byte as int / 4
    } else if low == 3 {
        byte as int / 8
    } else if low == 4 {
        byte as int / 16
    } else if low == 5 {
        byte as int / 32
    } else if low == 6 {
        byte as int / 64
    } else {
        byte as int / 128
    }
}

/// The lowest `width` bits of `value` as a number.
pub open spec fn lowest_bits(value: int, width: nat) -> int
    recommends
        1 <= width <= 8,
{
    if width == 1 {
        value % 2
    } else if width == 2 {
        value % 4
    } else if width == 3 {
        value % 8
    } else if width == 4 {
        value % 16
    } else if width == 5 {
        value % 32
    } else if width == 6 {
        value % 64
    } else if width == 7 {
        value % 128
    } else {
        value % 256
    }
}

/// The `width` bits of `byte` that start at bit `low`, counted from the least
/// significant bit, as a number.
pub open spec fn bit_field(byte: u8, low: nat, width: nat) -> int
    recommends
        low < 8,
        1 <= width <= 8,
{
    lowest_bits(shifted_down(byte, low), width)
}

/// Puts a high part of up to eight bits in front of a low byte.
pub fn join(high: u8, low: u8) -> (r: u16)
    ensures
        r == high as int * 256 + low as int,
{
    let h: u16 = high as u16;
    let l: u16 = low as u16;
    assert((h << 8) | l == h * 256 + l) by (bit_vector)
        requires
            h < 256,
            l < 256,
    ;
    (h << 8) | l
}

/// Reads a 16-bit big-endian number.
pub fn u16_be(bytes: &[u8], offset: usize) -> (r: u16)
    requires
        offset + 2 <= bytes@.len(),
    ensures
        r == be16(bytes@, offset as int),
{
    join(bytes[offset], bytes[offset + 1])
}

/// Reads a 32-bit big-endian number.
pub fn u32_be(bytes: &[u8], offset: usize) -> (r: u32)
    requires
        offset + 4 <= bytes@.len(),
    ensures
        r == be32(bytes@, offset as int),
{
    let hi: u32 = join(bytes[offset], bytes[offset + 1]) as u32;
    let lo: u32 = join(bytes[offset + 2], bytes[offset + 3]) as u32;
    assert((hi << 16) | lo == hi * 65536 + lo) by (bit_vector)
        requires
            hi < 65536,
            lo < 65536,
    ;
    (hi << 16) | lo
}

/// Extracts a bit field from one byte by shifting and masking.
pub fn bits(byte: u8, low: u8, width: u8) -> (r: u8)
    requires
        low < 8,
        1 <= width <= 8,
    ensures
        r == bit_field(byte, low as nat, width as nat),
{
    let shifted: u8 = byte >> low;
    let mask: u8 = 0xffu8 >> (8 - width);
    assert(shifted == shifted_down(byte, low as nat)) by {
        assert(low == 0 ==> byte >> low == byte) by (bit_vector);
        assert(low == 1 ==> byte >> low == byte / 2) by (bit_vector);
        assert(low == 2 ==> byte >> low == byte / 4) by (bit_vector);
        assert(low == 3 ==> byte >> low == byte / 8) by (bit_vector);
        assert(low == 4 ==> byte >> low == byte / 16) by (bit_vector);
        assert(low == 5 ==> byte >> low == byte / 32) by (bit_vector);
        assert(low == 6 ==> byte >> low == byte / 64) by (bit_vector);
        assert(low == 7 ==> byte >> low == byte / 128) by (bit_vector);
    }
    assert(shifted & mask == lowest_bits(shifted as int, width as nat)) by {
        assert(width == 1 ==> shifted & (0xffu8 >> (8 - width) as u8) == shifted % 2)
            by (bit_vector);
        assert(width == 2 ==> shifted & (0xffu8 >> (8 - width) as u8) == shifted % 4)
            by (bit_vector);
        assert(width == 3 ==> shifted & (0xffu8 >> (8 - width) as u8) == shifted % 8)
            by (bit_vector);
        assert(width == 4 ==> shifted & (0xffu8 >> (8 - width) as u8) == shifted % 16)
            by (bit_vector);
        assert(width == 5 ==> shifted & (0xffu8 >> (8 - width) as u8) == shifted % 32)
            by (bit_vector);
        assert(width == 6 ==> shifted & (0xffu8 >> (8 - width) as u8) == shifted % 64)
            by (bit_vector);
        assert(width == 7 ==> shifted & (0xffu8 >> (8 - width) as u8) == shifted % 128)
            by (bit_vector);
        assert(width == 8 ==> shifted & (0xffu8 >> (8 - width) as u8) == shifted)
            by (bit_vector);
    }
    shifted & mask
}

/// Copies the six bytes at `offset`, as a hardware address is stored.
pub fn mac_at(bytes: &[u8], offset: usize) -> (r: [u8; 6])
    requires
        offset + 6 <= bytes@.len(),
    ensures
        r@ == bytes@.subrange(offset as int, offset + 6),
{
    let r: [u8; 6] = [
        bytes[offset],
        bytes[offset + 1],
        bytes[offset + 2],
        bytes[offset + 3],
        bytes[offset + 4],
        bytes[offset + 5],
    ];
    assert(r@ =~= bytes@.subrange(offset as int, offset + 6));
    r
}

/// Copies the four bytes at `offset`, as an IPv4 address is stored.
pub fn ipv4_at(bytes: &[u8], offset: usize) -> (r: [u8; 4])
    requires
        offset + 4 <= bytes@.len(),
    ensures
        r@ == bytes@.subrange(offset as int, offset + 4),
{
    let r: [u8; 4] = [bytes[offset], bytes[offset + 1], bytes[offset + 2], bytes[offset + 3]];
    assert(r@ =~= bytes@.subrange(offset as int, offset + 4));
    r
}

/// The bytes from `from` to the end of the buffer.
pub fn tail(bytes: &[u8], from: usize) -> (r: &[u8])
    requires
        from <= bytes@.len(),
    ensures
        r@ == bytes@.skip(from as int),
{
    let r: &[u8] = &bytes[from..bytes.len()];
    assert(r@ =~= bytes@.skip(from as int));
    r
}

/// Copies the bytes from `from` up to `to` into a vector of their own.
pub fn copy_range(bytes: &[u8], from: usize, to: usize) -> (r: Vec<u8>)
    requires
        from <= to <= bytes@.len(),
    ensures
        r@ == bytes@.subrange(from as int, to as int),
{
    vstd::slice::slice_to_vec(&bytes[from..to])
}

} // verus!

//! Byte-offset and bit-offset field codec.
//!
//! Reads and writes big/little-endian integers at a byte offset inside a
//! buffer, and 4-bit nibbles at a nibble-aligned bit offset. Every operation
//! requires the caller to have validated the buffer length already.

use vstd::pervasive::VecAdditionalExecFns;
use vstd::prelude::*;
use vstd::slice::slice_index_get;

verus! {

/// The big-endian 16-bit value stored at byte offset `i`.
pub open spec fn be16_at(s: Seq<u8>, i: int) -> int {
    s[i] * 0x100 + s[i + 1]
}

/// The big-endian 32-bit value stored at byte offset `i`.
pub open spec fn be32_at(s: Seq<u8>, i: int) -> int {
    s[i] * 0x1000000 + s[i + 1] * 0x10000 + s[i + 2] * 0x100 + s[i + 3]
}

/// The big-endian 64-bit value stored at byte offset `i`.
pub open spec fn be64_at(s: Seq<u8>, i: int) -> int {
    be32_at(s, i) * 0x100000000 + be32_at(s, i + 4)
}

/// The little-endian 16-bit value stored at byte offset `i`.
pub open spec fn le16_at(s: Seq<u8>, i: int) -> int {
    s[i + 1] * 0x100 + s[i]
}

/// The nibble stored at bit offset `off`: the low half of the byte when the
/// offset is byte-aligned, else the high half.
pub open spec fn nibble_at(s: Seq<u8>, off: int) -> int {
    if off % 8 == 0 {
        (s[off / 8] as int) % 16
    } else {
        (s[off / 8] as int) / 16
    }
}

/// The byte `b` with one nibble replaced by `v` and the other kept.
pub open spec fn spec_with_nibble(b: int, low: bool, v: int) -> int {
    if low {
        (b / 16) * 16 + v % 16
    } else {
        b % 16 + (v % 16) * 16
    }
}

/// True when `s` and `t` have the same length and agree outside `[lo, hi)`.
pub open spec fn unchanged_outside(s: Seq<u8>, t: Seq<u8>, lo: int, hi: int) -> bool {
    &&& t.len() == s.len()
    &&& forall|i: int| 0 <= i < s.len() && !(lo <= i < hi) ==> t[i] == s[i]
}

pub fn read_be_u8_at(data: &[u8], offset: usize) -> (r: u8)
    requires
        offset < data@.len(),
    ensures
        r == data@[offset as int],
{
    *slice_index_get(data, offset)
}

pub fn read_be_u16_at(data: &[u8], offset: usize) -> (r: u16)
    requires
        offset + 2 <= data@.len(),
    ensures
        r == be16_at(data@, offset as int),
{
    let n = data.len();
    assert(offset + 2 <= n);
    let b0 = *slice_index_get(data, offset);
    let b1 = *slice_index_get(data, offset + 1);
    (b0 as u16) * 0x100 + (b1 as u16)
}

pub fn read_be_u32_at(data: &[u8], offset: usize) -> (r: u32)
    requires
        offset + 4 <= data@.len(),
    ensures
        r == be32_at(data@, offset as int),
{
    let n = data.len();
    assert(offset + 4 <= n);
    let b0 = *slice_index_get(data, offset);
    let b1 = *slice_index_get(data, offset + 1);
    let b2 = *slice_index_get(data, offset + 2);
    let b3 = *slice_index_get(data, offset + 3);
    (b0 as u32) * 0x1000000 + (b1 as u32) * 0x10000 + (b2 as u32) * 0x100 + (b3 as u32)
}

pub fn read_be_u64_at(data: &[u8], offset: usize) -> (r: u64)
    requires
        offset + 8 <= data@.len(),
    ensures
        r == be64_at(data@, offset as int),
{
    let n = data.len();
    assert(offset + 8 <= n);
    let hi = read_be_u32_at(data, offset);
    let lo = read_be_u32_at(data, offset + 4);
    (hi as u64) * 0x100000000 + (lo as u64)
}

pub fn read_le_u16_at(data: &[u8], offset: usize) -> (r: u16)
    requires
        offset + 2 <= data@.len(),
    ensures
        r == le16_at(data@, offset as int),
{
    let n = data.len();
    assert(offset + 2 <= n);
    let b0 = *slice_index_get(data, offset);
    let b1 = *slice_index_get(data, offset + 1);
    (b1 as u16) * 0x100 + (b0 as u16)
}

pub fn write_be_u8_at(data: &mut Vec<u8>, offset: usize, value: u8)
    requires
        offset < old(data)@.len(),
    ensures
        unchanged_outside(old(data)@, final(data)@, offset as int, offset + 1),
        final(data)@[offset as int] == value,
{
    data.set(offset, value);
}

pub fn write_be_u16_at(data: &mut Vec<u8>, offset: usize, value: u16)
    requires
        offset + 2 <= old(data)@.len(),
    ensures
        unchanged_outside(old(data)@, final(data)@, offset as int, offset + 2),
        be16_at(final(data)@, offset as int) == value,
{
    let n = data.len();
    assert(offset + 2 <= n);
    data.set(offset, (value / 0x100) as u8);
    data.set(offset + 1, (value % 0x100) as u8);
}

pub fn write_be_u32_at(data: &mut Vec<u8>, offset: usize, value: u32)
    requires
        offset + 4 <= old(data)@.len(),
    ensures
        unchanged_outside(old(data)@, final(data)@, offset as int, offset + 4),
        be32_at(final(data)@, offset as int) == value,
        final(data)@[offset as int] == value as int / 0x1000000,
        final(data)@[offset + 1] == (value as int / 0x10000) % 0x100,
        final(data)@[offset + 2] == (value as int / 0x100) % 0x100,
        final(data)@[offset + 3] == value as int % 0x100,
{
    let n = data.len();
    assert(offset + 4 <= n);
    data.set(offset, (value / 0x1000000) as u8);
    data.set(offset + 1, ((value / 0x10000) % 0x100) as u8);
    data.set(offset + 2, ((value / 0x100) % 0x100) as u8);
    data.set(offset + 3, (value % 0x100) as u8);
    proof {
        lemma_be32_decompose(value);
    }
}

pub fn write_be_u64_at(data: &mut Vec<u8>, offset: usize, value: u64)
    requires
        offset + 8 <= old(data)@.len(),
    ensures
        unchanged_outside(old(data)@, final(data)@, offset as int, offset + 8),
        be64_at(final(data)@, offset as int) == value,
{
    let n = data.len();
    assert(offset + 8 <= n);
    let hi = (value / 0x100000000) as u32;
    let lo = (value % 0x100000000) as u32;
    write_be_u32_at(data, offset, hi);
    write_be_u32_at(data, offset + 4, lo);
}

pub fn write_le_u16_at(data: &mut Vec<u8>, offset: usize, value: u16)
    requires
        offset + 2 <= old(data)@.len(),
    ensures
        unchanged_outside(old(data)@, final(data)@, offset as int, offset + 2),
        le16_at(final(data)@, offset as int) == value,
{
    let n = data.len();
    assert(offset + 2 <= n);
    data.set(offset, (value % 0x100) as u8);
    data.set(offset + 1, (value / 0x100) as u8);
}

proof fn lemma_be32_decompose(value: u32)
    ensures
        (value / 0x1000000) * 0x1000000 + ((value / 0x10000) % 0x100) * 0x10000 + ((value / 0x100)
            % 0x100) * 0x100 + value % 0x100 == value,
{
    assert((value / 0x1000000) * 0x1000000 + ((value / 0x10000) % 0x100) * 0x10000 + ((value
        / 0x100) % 0x100) * 0x100 + value % 0x100 == value) by (bit_vector);
}

/// Byte offset of a bit offset.
pub fn calculate_offset_bytes(bit_offset: u64) -> (r: usize)
    requires
        bit_offset / 8 <= u32::MAX,
    ensures
        r == bit_offset as int / 8,
{
    (bit_offset / 8) as usize
}

/// Byte offset of a 16-bit bit offset.
pub fn calculate_offset_bytes_u16(bit_offset: u16) -> (r: usize)
    ensures
        r == bit_offset as int / 8,
{
    (bit_offset / 8) as usize
}

/// Byte offset of a 32-bit bit offset.
pub fn calculate_offset_bytes_u32(bit_offset: u32) -> (r: usize)
    ensures
        r == bit_offset as int / 8,
{
    (bit_offset / 8) as usize
}

/// Writes the low nibble of `value` at a nibble-aligned bit offset,
/// preserving the other nibble of the target byte.
pub fn write_nibble_at(data: &mut Vec<u8>, bit_offset: u8, value: u8)
    requires
        bit_offset % 8 == 0 || bit_offset % 8 == 4,
        bit_offset as int / 8 < old(data)@.len(),
    ensures
        unchanged_outside(old(data)@, final(data)@, bit_offset as int / 8, bit_offset as int / 8 + 1),
        final(data)@[bit_offset as int / 8] == spec_with_nibble(
            old(data)@[bit_offset as int / 8] as int,
            bit_offset % 8 == 0,
            value as int,
        ),
        nibble_at(final(data)@, bit_offset as int) == value % 16,
{
    let byte_idx = (bit_offset / 8) as usize;
    let b = data[byte_idx];
    if bit_offset % 8 == 0 {
        data.set(byte_idx, (b / 16) * 16 + value % 16);
    } else {
        data.set(byte_idx, b % 16 + (value % 16) * 16);
    }
}

/// Reads the nibble at a nibble-aligned bit offset.
pub fn read_nibble_at(data: &[u8], bit_offset: u8) -> (r: u8)
    requires
        bit_offset % 8 == 0 || bit_offset % 8 == 4,
        bit_offset as int / 8 < data@.len(),
    ensures
        r == nibble_at(data@, bit_offset as int),
{
    let b = *slice_index_get(data, (bit_offset / 8) as usize);
    if bit_offset % 8 == 0 {
        b % 16
    } else {
        b / 16
    }
}

/// Writes the masked bits of `value` into the byte at `offset`, keeping the
/// other bits of that byte.
pub fn write_masked_u8_at(data: &mut Vec<u8>, offset: usize, value: u8, mask: u8)
    requires
        offset < old(data)@.len(),
    ensures
        unchanged_outside(old(data)@, final(data)@, offset as int, offset + 1),
        final(data)@[offset as int] == (old(data)@[offset as int] & !mask) | (value & mask),
{
    let b = data[offset];
    data.set(offset, (b & !mask) | (value & mask));
}

} // verus!

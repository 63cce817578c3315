//! Little-endian integers read from account data.
use vstd::prelude::*;

verus! {

/// The byte of `s` at position `p`, as an integer.
pub open spec fn byte(s: Seq<u8>, p: int) -> int {
    s[p] as int
}

/// The little-endian `u16` stored at `s[p..p + 2]`.
pub open spec fn le_u16(s: Seq<u8>, p: int) -> int {
    byte(s, p) + 256 * byte(s, p + 1)
}

/// The little-endian `u32` stored at `s[p..p + 4]`.
pub open spec fn le_u32(s: Seq<u8>, p: int) -> int {
    le_u16(s, p) + 65536 * le_u16(s, p + 2)
}

/// The little-endian `u64` stored at `s[p..p + 8]`.
pub open spec fn le_u64(s: Seq<u8>, p: int) -> int {
    le_u32(s, p) + 4294967296 * le_u32(s, p + 4)
}

/// The little-endian `u128` stored at `s[p..p + 16]`.
pub open spec fn le_u128(s: Seq<u8>, p: int) -> int {
    le_u64(s, p) + 18446744073709551616 * le_u64(s, p + 8)
}

/// Reads the little-endian `u16` at `data[offset..offset + 2]`.
pub fn read_u16(data: &[u8], offset: usize) -> (r: u16)
    requires
        offset + 2 <= data.len(),
    ensures
        r == le_u16(data@, offset as int),
{
    (data[offset] as u16) + 256 * (data[offset + 1] as u16)
}

/// Reads the little-endian `u32` at `data[offset..offset + 4]`.
pub fn read_u32(data: &[u8], offset: usize) -> (r: u32)
    requires
        offset + 4 <= data.len(),
    ensures
        r == le_u32(data@, offset as int),
{
    let lo = read_u16(data, offset);
    let hi = read_u16(data, offset + 2);
    (lo as u32) + 65536 * (hi as u32)
}

/// Reads the little-endian `u64` at `data[offset..offset + 8]`.
pub fn read_u64(data: &[u8], offset: usize) -> (r: u64)
    requires
        offset + 8 <= data.len(),
    ensures
        r == le_u64(data@, offset as int),
{
    let lo = read_u32(data, offset);
    let hi = read_u32(data, offset + 4);
    (lo as u64) + 4294967296 * (hi as u64)
}

/// Reads the little-endian `u128` at `data[offset..offset + 16]`.
pub fn read_u128(data: &[u8], offset: usize) -> (r: u128)
    requires
        offset + 16 <= data.len(),
    ensures
        r == le_u128(data@, offset as int),
{
    let lo = read_u64(data, offset);
    let hi = read_u64(data, offset + 8);
    (lo as u128) + 18446744073709551616 * (hi as u128)
}

} // verus!

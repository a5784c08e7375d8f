//! Little-endian decoding of integer fields from a byte buffer.
//!
//! BMP stores every multi-byte field little-endian regardless of the host
//! platform, so each field is decoded byte by byte rather than by
//! reinterpreting memory.

use vstd::prelude::*;

verus! {

/// The unsigned 16-bit value stored little-endian at offset `i` of `s`.
pub open spec fn le_u16_at(s: Seq<u8>, i: int) -> u16 {
    (s[i] + s[i + 1] * 0x100) as u16
}

/// The unsigned 32-bit value stored little-endian at offset `i` of `s`.
pub open spec fn le_u32_at(s: Seq<u8>, i: int) -> u32 {
    (s[i] + s[i + 1] * 0x100 + s[i + 2] * 0x1_0000 + s[i + 3] * 0x100_0000) as u32
}

/// The signed 32-bit value stored little-endian at offset `i` of `s`:
/// the two's-complement reading of the unsigned value.
pub open spec fn le_i32_at(s: Seq<u8>, i: int) -> i32 {
    if le_u32_at(s, i) < 0x8000_0000 {
        le_u32_at(s, i) as i32
    } else {
        (le_u32_at(s, i) - 0x1_0000_0000) as i32
    }
}

/// Reads the little-endian `u16` at offset `i`.
pub fn read_u16_at(data: &Vec<u8>, i: usize) -> (r: u16)
    requires
        i + 2 <= data@.len(),
    ensures
        r == le_u16_at(data@, i as int),
{
    // The length call bounds data@.len() by usize::MAX, so i + 1 cannot wrap.
    let n: usize = data.len();
    (data[i] as u16) + (data[i + 1] as u16) * 0x100
}

/// Reads the little-endian `u32` at offset `i`.
pub fn read_u32_at(data: &Vec<u8>, i: usize) -> (r: u32)
    requires
        i + 4 <= data@.len(),
    ensures
        r == le_u32_at(data@, i as int),
{
    // The length call bounds data@.len() by usize::MAX, so i + 3 cannot wrap.
    let n: usize = data.len();
    (data[i] as u32) + (data[i + 1] as u32) * 0x100 + (data[i + 2] as u32) * 0x1_0000 + (data[i
        + 3] as u32) * 0x100_0000
}

/// Reads the little-endian `i32` at offset `i`.
pub fn read_i32_at(data: &Vec<u8>, i: usize) -> (r: i32)
    requires
        i + 4 <= data@.len(),
    ensures
        r == le_i32_at(data@, i as int),
{
    let raw = read_u32_at(data, i);
    if raw < 0x8000_0000 {
        raw as i32
    } else {
        ((raw as i64) - 0x1_0000_0000i64) as i32
    }
}

} // verus!

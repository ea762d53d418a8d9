//! Fixed-width little-endian primitive reads over the file buffer.
//!
//! Every multi-byte field of the format is little-endian. The readers here
//! are the only place the byte order is interpreted; all lump decoders are
//! specified in terms of `u16_at` / `u32_at` / `i32_at`.

use vstd::bytes::{spec_u16_from_le_bytes, spec_u32_from_le_bytes};
use vstd::prelude::*;

verus! {

/// The unsigned 16-bit value stored little-endian at byte offset `off`.
pub open spec fn u16_at(b: Seq<u8>, off: int) -> u16 {
    spec_u16_from_le_bytes(b.subrange(off, off + 2))
}

/// The unsigned 32-bit value stored little-endian at byte offset `off`.
pub open spec fn u32_at(b: Seq<u8>, off: int) -> u32 {
    spec_u32_from_le_bytes(b.subrange(off, off + 4))
}

/// The signed 32-bit value stored little-endian at byte offset `off`:
/// the unsigned value reinterpreted in two's complement.
pub open spec fn i32_at(b: Seq<u8>, off: int) -> i32 {
    let u = u32_at(b, off);
    if u < 0x8000_0000 {
        u as i32
    } else {
        (u - 0x1_0000_0000) as i32
    }
}

/// Reads the little-endian `u16` at `off`.
pub fn read_u16_le(data: &Vec<u8>, off: usize) -> (r: u16)
    requires
        off + 2 <= data.len(),
    ensures
        r == u16_at(data@, off as int),
{
    let s = vstd::slice::slice_subrange(data.as_slice(), off, off + 2);
    vstd::bytes::u16_from_le_bytes(s)
}

/// Reads the little-endian `u32` at `off`.
pub fn read_u32_le(data: &Vec<u8>, off: usize) -> (r: u32)
    requires
        off + 4 <= data.len(),
    ensures
        r == u32_at(data@, off as int),
{
    let s = vstd::slice::slice_subrange(data.as_slice(), off, off + 4);
    vstd::bytes::u32_from_le_bytes(s)
}

/// Reads the little-endian `i32` at `off`.
pub fn read_i32_le(data: &Vec<u8>, off: usize) -> (r: i32)
    requires
        off + 4 <= data.len(),
    ensures
        r == i32_at(data@, off as int),
{
    let u = read_u32_le(data, off);
    if u < 0x8000_0000 {
        u as i32
    } else {
        ((u as i64) - 0x1_0000_0000i64) as i32
    }
}

} // verus!

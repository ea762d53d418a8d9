//! Record types of the typed lumps, and the shared frame check that every
//! lump reader performs before decoding records.
//!
//! A lump is a tightly packed array of fixed-width records. Record `i` of a
//! lump with record width `W` starts at byte `entry.offset + i * W`; the
//! record count is `entry.size / W`, and a size that is not a whole number
//! of records is an error, never a silently dropped tail.

use crate::bytes::{i32_at, u16_at, u32_at};
use crate::error::BspError;
use crate::header::BspEntry;
use vstd::prelude::*;

verus! {

/// Bytes per vertex record: three 4-byte floats.
pub const VERTEX_WIDTH: usize = 12;

/// Bytes per edge record: two 2-byte vertex indices.
pub const EDGE_WIDTH: usize = 4;

/// Bytes per ledge record: one signed 32-bit integer.
pub const LEDGE_WIDTH: usize = 4;

/// Bytes per face record.
pub const FACE_WIDTH: usize = 20;

/// Bytes per plane record.
pub const PLANE_WIDTH: usize = 20;

/// One point of the vertices lump. The file stores x, y, z as 32-bit
/// little-endian IEEE-754 floats; they are kept here as the raw bit
/// patterns, decoded but not interpreted — reading them as floating-point
/// numbers is the rendering layer's concern, not the decoder's.
#[derive(Clone, Copy, Debug, PartialEq, Eq, Structural)]
pub struct Vertex {
    pub x_bits: u32,
    pub y_bits: u32,
    pub z_bits: u32,
}

/// One record of the edges lump: an undirected segment between two entries
/// of the vertex array, shared by up to two faces.
#[derive(Clone, Copy, Debug, PartialEq, Eq, Structural)]
pub struct Edge {
    pub first: u16,
    pub second: u16,
}

/// One record of the faces lump. `ledge_id` and `ledge_num` select the
/// face's run within the ledges lump; the rest locate the face's plane,
/// texture and lighting data.
#[derive(Clone, Copy, Debug, PartialEq, Eq, Structural)]
pub struct Face {
    pub plane_id: u16,
    pub side: u16,
    pub ledge_id: i32,
    pub ledge_num: u16,
    pub texinfo_id: u16,
    pub typelight: u8,
    pub baselight: u8,
    pub light0: u8,
    pub light1: u8,
    pub lightmap: i32,
}

/// One record of the planes lump: a normal vector and a distance scalar
/// (as raw float bit patterns, like `Vertex`), and the format's axis-kind
/// word.
#[derive(Clone, Copy, Debug, PartialEq, Eq, Structural)]
pub struct Plane {
    pub normal_x_bits: u32,
    pub normal_y_bits: u32,
    pub normal_z_bits: u32,
    pub dist_bits: u32,
    pub kind: u32,
}

/// The vertex record stored at byte offset `off`: x, y, z in that order.
pub open spec fn vertex_at(b: Seq<u8>, off: int) -> Vertex {
    Vertex { x_bits: u32_at(b, off), y_bits: u32_at(b, off + 4), z_bits: u32_at(b, off + 8) }
}

/// The edge record stored at byte offset `off`: first, then second.
pub open spec fn edge_at(b: Seq<u8>, off: int) -> Edge {
    Edge { first: u16_at(b, off), second: u16_at(b, off + 2) }
}

/// The ledge stored at byte offset `off`: one signed 32-bit integer.
pub open spec fn ledge_at(b: Seq<u8>, off: int) -> i32 {
    i32_at(b, off)
}

/// The face record stored at byte offset `off`, fields in the format's
/// order.
pub open spec fn face_at(b: Seq<u8>, off: int) -> Face {
    Face {
        plane_id: u16_at(b, off),
        side: u16_at(b, off + 2),
        ledge_id: i32_at(b, off + 4),
        ledge_num: u16_at(b, off + 8),
        texinfo_id: u16_at(b, off + 10),
        typelight: b[off + 12],
        baselight: b[off + 13],
        light0: b[off + 14],
        light1: b[off + 15],
        lightmap: i32_at(b, off + 16),
    }
}

/// The plane record stored at byte offset `off`: normal x, y, z, distance,
/// kind.
pub open spec fn plane_at(b: Seq<u8>, off: int) -> Plane {
    Plane {
        normal_x_bits: u32_at(b, off),
        normal_y_bits: u32_at(b, off + 4),
        normal_z_bits: u32_at(b, off + 8),
        dist_bits: u32_at(b, off + 12),
        kind: u32_at(b, off + 16),
    }
}

/// The lump's whole byte range lies inside a buffer of `blen` bytes.
pub open spec fn lump_in_bounds(blen: int, e: BspEntry) -> bool {
    e.offset + e.size <= blen
}

/// The lump's size is a whole number of records of width `w`.
pub open spec fn lump_aligned(e: BspEntry, w: int) -> bool {
    e.size as int % w == 0
}

/// How many records the lump holds.
pub open spec fn record_count(e: BspEntry, w: int) -> int {
    e.size as int / w
}

/// Checks a lump's frame against a buffer of `len` bytes and returns the
/// record count. A range past the end of the buffer fails with
/// `TruncatedLump`; an in-bounds range whose size is not a whole number of
/// records fails with `MisalignedLump`. On success the count times the
/// width gives back exactly the declared size.
pub fn lump_record_count(len: usize, entry: &BspEntry, width: usize) -> (r: Result<
    usize,
    BspError,
>)
    requires
        1 <= width,
    ensures
        match r {
            Ok(n) => {
                &&& lump_in_bounds(len as int, *entry)
                &&& lump_aligned(*entry, width as int)
                &&& n == record_count(*entry, width as int)
                &&& n * width == entry.size
            },
            Err(e) => {
                &&& (e == BspError::TruncatedLump <==> !lump_in_bounds(len as int, *entry))
                &&& (e == BspError::MisalignedLump <==> lump_in_bounds(len as int, *entry)
                    && !lump_aligned(*entry, width as int))
                &&& (e == BspError::TruncatedLump || e == BspError::MisalignedLump)
            },
        },
{
    if (entry.offset as u64) + (entry.size as u64) > (len as u64) {
        return Err(BspError::TruncatedLump);
    }
    let size = entry.size as usize;
    if size % width != 0 {
        return Err(BspError::MisalignedLump);
    }
    let n = size / width;
    proof {
        vstd::arithmetic::div_mod::lemma_fundamental_div_mod(size as int, width as int);
        vstd::arithmetic::mul::lemma_mul_is_commutative(n as int, width as int);
    }
    Ok(n)
}

} // verus!

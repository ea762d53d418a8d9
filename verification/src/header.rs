//! The fixed 124-byte header: a version word and fifteen directory entries.

use crate::bytes::{read_u32_le, u32_at};
use crate::error::BspError;
use vstd::bytes::spec_u32_to_le_bytes;
use vstd::prelude::*;

verus! {

/// Bytes in the fixed header: a 4-byte version and 15 entries of 8 bytes.
pub const HEADER_SIZE: usize = 124;

/// The one format version this library is written for. The decoder stores
/// whatever version the file carries; holding a file to this value is the
/// caller's check.
pub const BSP_VERSION: u32 = 29;

/// One directory entry: the byte offset of a lump from the start of the
/// file, and its length in bytes (not a record count).
#[derive(Clone, Copy, Debug, PartialEq, Eq, Structural)]
pub struct BspEntry {
    pub offset: u32,
    pub size: u32,
}

/// The decoded header. The version must be 29 for a Quake BSP, but the
/// decoder stores any version unchecked: rejecting other versions is the
/// caller's decision. The fifteen entries stand in the order the format
/// fixes; they must not be reordered.
#[derive(Clone, Copy, Debug, PartialEq, Eq, Structural)]
pub struct BspHeader {
    pub version: u32,
    pub entities: BspEntry,
    pub planes: BspEntry,
    pub miptex: BspEntry,
    pub vertices: BspEntry,
    pub visilist: BspEntry,
    pub nodes: BspEntry,
    pub texinfo: BspEntry,
    pub faces: BspEntry,
    pub lightmaps: BspEntry,
    pub clipnodes: BspEntry,
    pub leaves: BspEntry,
    pub lfaces: BspEntry,
    pub edges: BspEntry,
    pub ledges: BspEntry,
    pub models: BspEntry,
}

/// The directory entry stored at byte offset `off`: offset word, then size
/// word.
pub open spec fn entry_at(b: Seq<u8>, off: int) -> BspEntry {
    BspEntry { offset: u32_at(b, off), size: u32_at(b, off + 4) }
}

/// The header stored in the first 124 bytes of `b`: the version word, then
/// the fifteen entries at their fixed offsets.
pub open spec fn header_at(b: Seq<u8>) -> BspHeader {
    BspHeader {
        version: u32_at(b, 0),
        entities: entry_at(b, 4),
        planes: entry_at(b, 12),
        miptex: entry_at(b, 20),
        vertices: entry_at(b, 28),
        visilist: entry_at(b, 36),
        nodes: entry_at(b, 44),
        texinfo: entry_at(b, 52),
        faces: entry_at(b, 60),
        lightmaps: entry_at(b, 68),
        clipnodes: entry_at(b, 76),
        leaves: entry_at(b, 84),
        lfaces: entry_at(b, 92),
        edges: entry_at(b, 100),
        ledges: entry_at(b, 108),
        models: entry_at(b, 116),
    }
}

/// The 8 bytes that store a directory entry.
pub open spec fn encode_entry(e: BspEntry) -> Seq<u8> {
    spec_u32_to_le_bytes(e.offset) + spec_u32_to_le_bytes(e.size)
}

/// The 124 header bytes that store `h`: what an encoder for the format
/// would emit. The library never writes files; this is the ghost-level
/// counterpart of `decode_header`, against which the round trip is proved.
pub open spec fn encode_header(h: BspHeader) -> Seq<u8> {
    spec_u32_to_le_bytes(h.version) + encode_entry(h.entities) + encode_entry(h.planes)
        + encode_entry(h.miptex) + encode_entry(h.vertices) + encode_entry(h.visilist)
        + encode_entry(h.nodes) + encode_entry(h.texinfo) + encode_entry(h.faces) + encode_entry(
        h.lightmaps,
    ) + encode_entry(h.clipnodes) + encode_entry(h.leaves) + encode_entry(h.lfaces) + encode_entry(
        h.edges,
    ) + encode_entry(h.ledges) + encode_entry(h.models)
}

/// Round trip through the encoding: decoding the 124 header bytes that
/// store a header recovers the exact version and all fifteen
/// `(offset, size)` pairs. Holds for every header value.
pub proof fn lemma_header_round_trip(h: BspHeader)
    ensures
        encode_header(h).len() == HEADER_SIZE,
        header_at(encode_header(h)) == h,
{
    vstd::bytes::lemma_auto_spec_u32_to_from_le_bytes();
    let b = encode_header(h);
    assert(b.subrange(0, 4) =~= spec_u32_to_le_bytes(h.version));
    assert(b.subrange(4, 8) =~= spec_u32_to_le_bytes(h.entities.offset));
    assert(b.subrange(8, 12) =~= spec_u32_to_le_bytes(h.entities.size));
    assert(b.subrange(12, 16) =~= spec_u32_to_le_bytes(h.planes.offset));
    assert(b.subrange(16, 20) =~= spec_u32_to_le_bytes(h.planes.size));
    assert(b.subrange(20, 24) =~= spec_u32_to_le_bytes(h.miptex.offset));
    assert(b.subrange(24, 28) =~= spec_u32_to_le_bytes(h.miptex.size));
    assert(b.subrange(28, 32) =~= spec_u32_to_le_bytes(h.vertices.offset));
    assert(b.subrange(32, 36) =~= spec_u32_to_le_bytes(h.vertices.size));
    assert(b.subrange(36, 40) =~= spec_u32_to_le_bytes(h.visilist.offset));
    assert(b.subrange(40, 44) =~= spec_u32_to_le_bytes(h.visilist.size));
    assert(b.subrange(44, 48) =~= spec_u32_to_le_bytes(h.nodes.offset));
    assert(b.subrange(48, 52) =~= spec_u32_to_le_bytes(h.nodes.size));
    assert(b.subrange(52, 56) =~= spec_u32_to_le_bytes(h.texinfo.offset));
    assert(b.subrange(56, 60) =~= spec_u32_to_le_bytes(h.texinfo.size));
    assert(b.subrange(60, 64) =~= spec_u32_to_le_bytes(h.faces.offset));
    assert(b.subrange(64, 68) =~= spec_u32_to_le_bytes(h.faces.size));
    assert(b.subrange(68, 72) =~= spec_u32_to_le_bytes(h.lightmaps.offset));
    assert(b.subrange(72, 76) =~= spec_u32_to_le_bytes(h.lightmaps.size));
    assert(b.subrange(76, 80) =~= spec_u32_to_le_bytes(h.clipnodes.offset));
    assert(b.subrange(80, 84) =~= spec_u32_to_le_bytes(h.clipnodes.size));
    assert(b.subrange(84, 88) =~= spec_u32_to_le_bytes(h.leaves.offset));
    assert(b.subrange(88, 92) =~= spec_u32_to_le_bytes(h.leaves.size));
    assert(b.subrange(92, 96) =~= spec_u32_to_le_bytes(h.lfaces.offset));
    assert(b.subrange(96, 100) =~= spec_u32_to_le_bytes(h.lfaces.size));
    assert(b.subrange(100, 104) =~= spec_u32_to_le_bytes(h.edges.offset));
    assert(b.subrange(104, 108) =~= spec_u32_to_le_bytes(h.edges.size));
    assert(b.subrange(108, 112) =~= spec_u32_to_le_bytes(h.ledges.offset));
    assert(b.subrange(112, 116) =~= spec_u32_to_le_bytes(h.ledges.size));
    assert(b.subrange(116, 120) =~= spec_u32_to_le_bytes(h.models.offset));
    assert(b.subrange(120, 124) =~= spec_u32_to_le_bytes(h.models.size));
}

/// Reads the directory entry at byte offset `off`.
fn read_entry(data: &Vec<u8>, off: usize) -> (r: BspEntry)
    requires
        off + 8 <= data.len(),
    ensures
        r == entry_at(data@, off as int),
{
    let offset = read_u32_le(data, off);
    let size = read_u32_le(data, off + 4);
    BspEntry { offset, size }
}

/// Decodes the header from the first 124 bytes of the buffer: the version
/// as a little-endian `u32`, then fifteen `(offset, size)` pairs in the
/// fixed field order. A buffer shorter than the fixed header fails with
/// `MalformedHeader`; nothing else is rejected here, and in particular any
/// version value is stored as read.
pub fn decode_header(data: &Vec<u8>) -> (r: Result<BspHeader, BspError>)
    ensures
        data@.len() >= HEADER_SIZE ==> r == Ok::<BspHeader, BspError>(header_at(data@)),
        data@.len() < HEADER_SIZE ==> r == Err::<BspHeader, BspError>(BspError::MalformedHeader),
{
    if data.len() < HEADER_SIZE {
        return Err(BspError::MalformedHeader);
    }
    let version = read_u32_le(data, 0);
    Ok(BspHeader {
        version,
        entities: read_entry(data, 4),
        planes: read_entry(data, 12),
        miptex: read_entry(data, 20),
        vertices: read_entry(data, 28),
        visilist: read_entry(data, 36),
        nodes: read_entry(data, 44),
        texinfo: read_entry(data, 52),
        faces: read_entry(data, 60),
        lightmaps: read_entry(data, 68),
        clipnodes: read_entry(data, 76),
        leaves: read_entry(data, 84),
        lfaces: read_entry(data, 92),
        edges: read_entry(data, 100),
        ledges: read_entry(data, 108),
        models: read_entry(data, 116),
    })
}

} // verus!

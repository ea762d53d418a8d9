//! The owned file buffer and the typed readers over it.
//!
//! A `Bsp` owns the whole file contents; every decoded structure is a copy
//! of primitive values, so nothing borrows into the buffer. The readers
//! decode one lump each, against the directory entry that locates it.

use crate::bytes::{read_i32_le, read_u16_le, read_u32_le};
use crate::error::BspError;
use crate::header::{decode_header, header_at, BspEntry, BspHeader, HEADER_SIZE};
use crate::lumps::{
    edge_at, face_at, ledge_at, lump_aligned, lump_in_bounds, lump_record_count, plane_at,
    record_count, vertex_at, Edge, Face, Plane, Vertex, EDGE_WIDTH, FACE_WIDTH, LEDGE_WIDTH,
    PLANE_WIDTH, VERTEX_WIDTH,
};
use vstd::prelude::*;

verus! {

/// A whole BSP file held in memory as one immutable, randomly addressable
/// byte buffer.
pub struct Bsp {
    data: Vec<u8>,
}

impl View for Bsp {
    type V = Seq<u8>;

    closed spec fn view(&self) -> Seq<u8> {
        self.data@
    }
}

impl Bsp {
    /// Wraps the file contents. The buffer is owned for the lifetime of
    /// the value and never mutated.
    pub fn new(data: Vec<u8>) -> (r: Bsp)
        ensures
            r@ == data@,
    {
        Bsp { data }
    }

    /// How many bytes the buffer holds.
    pub fn len(&self) -> (r: usize)
        ensures
            r == self@.len(),
    {
        self.data.len()
    }

    /// Decodes the fixed 124-byte header; see `decode_header`.
    pub fn read_header(&self) -> (r: Result<BspHeader, BspError>)
        ensures
            self@.len() >= HEADER_SIZE ==> r == Ok::<BspHeader, BspError>(header_at(self@)),
            self@.len() < HEADER_SIZE ==> r == Err::<BspHeader, BspError>(
                BspError::MalformedHeader,
            ),
    {
        decode_header(&self.data)
    }

    /// Decodes the vertices lump located by `entry` as records of three
    /// little-endian 32-bit floats, kept as bit patterns.
    pub fn read_vertices(&self, entry: &BspEntry) -> (r: Result<Vec<Vertex>, BspError>)
        ensures
            match r {
                Ok(v) => {
                    &&& lump_in_bounds(self@.len() as int, *entry)
                    &&& lump_aligned(*entry, VERTEX_WIDTH as int)
                    &&& v@.len() == record_count(*entry, VERTEX_WIDTH as int)
                    &&& v@.len() * VERTEX_WIDTH == entry.size
                    &&& forall|i: int|
                        0 <= i < v@.len() ==> v@[i] == vertex_at(
                            self@,
                            entry.offset + VERTEX_WIDTH * i,
                        )
                },
                Err(e) => {
                    &&& (e == BspError::TruncatedLump <==> !lump_in_bounds(
                        self@.len() as int,
                        *entry,
                    ))
                    &&& (e == BspError::MisalignedLump <==> lump_in_bounds(
                        self@.len() as int,
                        *entry,
                    ) && !lump_aligned(*entry, VERTEX_WIDTH as int))
                    &&& (e == BspError::TruncatedLump || e == BspError::MisalignedLump)
                },
            },
    {
        let n = match lump_record_count(self.data.len(), entry, VERTEX_WIDTH) {
            Ok(n) => n,
            Err(e) => {
                return Err(e);
            },
        };
        let mut out: Vec<Vertex> = Vec::new();
        let mut i: usize = 0;
        while i < n
            invariant
                i <= n,
                n * VERTEX_WIDTH == entry.size,
                lump_in_bounds(self.data@.len() as int, *entry),
                self.data@.len() <= usize::MAX,
                out@.len() == i,
                forall|j: int|
                    0 <= j < i ==> out@[j] == vertex_at(self.data@, entry.offset + VERTEX_WIDTH * j),
            decreases n - i,
        {
            let pos = entry.offset as usize + i * VERTEX_WIDTH;
            let x_bits = read_u32_le(&self.data, pos);
            let y_bits = read_u32_le(&self.data, pos + 4);
            let z_bits = read_u32_le(&self.data, pos + 8);
            out.push(Vertex { x_bits, y_bits, z_bits });
            i = i + 1;
        }
        Ok(out)
    }

    /// Decodes the edges lump located by `entry` as records of two
    /// little-endian 16-bit vertex indices.
    pub fn read_edges(&self, entry: &BspEntry) -> (r: Result<Vec<Edge>, BspError>)
        ensures
            match r {
                Ok(v) => {
                    &&& lump_in_bounds(self@.len() as int, *entry)
                    &&& lump_aligned(*entry, EDGE_WIDTH as int)
                    &&& v@.len() == record_count(*entry, EDGE_WIDTH as int)
                    &&& v@.len() * EDGE_WIDTH == entry.size
                    &&& forall|i: int|
                        0 <= i < v@.len() ==> v@[i] == edge_at(self@, entry.offset + EDGE_WIDTH * i)
                },
                Err(e) => {
                    &&& (e == BspError::TruncatedLump <==> !lump_in_bounds(
                        self@.len() as int,
                        *entry,
                    ))
                    &&& (e == BspError::MisalignedLump <==> lump_in_bounds(
                        self@.len() as int,
                        *entry,
                    ) && !lump_aligned(*entry, EDGE_WIDTH as int))
                    &&& (e == BspError::TruncatedLump || e == BspError::MisalignedLump)
                },
            },
    {
        let n = match lump_record_count(self.data.len(), entry, EDGE_WIDTH) {
            Ok(n) => n,
            Err(e) => {
                return Err(e);
            },
        };
        let mut out: Vec<Edge> = Vec::new();
        let mut i: usize = 0;
        while i < n
            invariant
                i <= n,
                n * EDGE_WIDTH == entry.size,
                lump_in_bounds(self.data@.len() as int, *entry),
                self.data@.len() <= usize::MAX,
                out@.len() == i,
                forall|j: int|
                    0 <= j < i ==> out@[j] == edge_at(self.data@, entry.offset + EDGE_WIDTH * j),
            decreases n - i,
        {
            let pos = entry.offset as usize + i * EDGE_WIDTH;
            let first = read_u16_le(&self.data, pos);
            let second = read_u16_le(&self.data, pos + 2);
            out.push(Edge { first, second });
            i = i + 1;
        }
        Ok(out)
    }

    /// Decodes the ledges lump named by the header as a flat list of
    /// signed little-endian 32-bit integers.
    pub fn read_ledges(&self, header: &BspHeader) -> (r: Result<Vec<i32>, BspError>)
        ensures
            match r {
                Ok(v) => {
                    &&& lump_in_bounds(self@.len() as int, header.ledges)
                    &&& lump_aligned(header.ledges, LEDGE_WIDTH as int)
                    &&& v@.len() == record_count(header.ledges, LEDGE_WIDTH as int)
                    &&& v@.len() * LEDGE_WIDTH == header.ledges.size
                    &&& forall|i: int|
                        0 <= i < v@.len() ==> v@[i] == ledge_at(
                            self@,
                            header.ledges.offset + LEDGE_WIDTH * i,
                        )
                },
                Err(e) => {
                    &&& (e == BspError::TruncatedLump <==> !lump_in_bounds(
                        self@.len() as int,
                        header.ledges,
                    ))
                    &&& (e == BspError::MisalignedLump <==> lump_in_bounds(
                        self@.len() as int,
                        header.ledges,
                    ) && !lump_aligned(header.ledges, LEDGE_WIDTH as int))
                    &&& (e == BspError::TruncatedLump || e == BspError::MisalignedLump)
                },
            },
    {
        let entry = &header.ledges;
        let n = match lump_record_count(self.data.len(), entry, LEDGE_WIDTH) {
            Ok(n) => n,
            Err(e) => {
                return Err(e);
            },
        };
        let mut out: Vec<i32> = Vec::new();
        let mut i: usize = 0;
        while i < n
            invariant
                i <= n,
                n * LEDGE_WIDTH == entry.size,
                lump_in_bounds(self.data@.len() as int, *entry),
                self.data@.len() <= usize::MAX,
                out@.len() == i,
                forall|j: int|
                    0 <= j < i ==> out@[j] == ledge_at(self.data@, entry.offset + LEDGE_WIDTH * j),
            decreases n - i,
        {
            let pos = entry.offset as usize + i * LEDGE_WIDTH;
            let l = read_i32_le(&self.data, pos);
            out.push(l);
            i = i + 1;
        }
        Ok(out)
    }

    /// Decodes the faces lump located by `entry`, fields in the format's
    /// order.
    pub fn read_faces(&self, entry: &BspEntry) -> (r: Result<Vec<Face>, BspError>)
        ensures
            match r {
                Ok(v) => {
                    &&& lump_in_bounds(self@.len() as int, *entry)
                    &&& lump_aligned(*entry, FACE_WIDTH as int)
                    &&& v@.len() == record_count(*entry, FACE_WIDTH as int)
                    &&& v@.len() * FACE_WIDTH == entry.size
                    &&& forall|i: int|
                        0 <= i < v@.len() ==> v@[i] == face_at(self@, entry.offset + FACE_WIDTH * i)
                },
                Err(e) => {
                    &&& (e == BspError::TruncatedLump <==> !lump_in_bounds(
                        self@.len() as int,
                        *entry,
                    ))
                    &&& (e == BspError::MisalignedLump <==> lump_in_bounds(
                        self@.len() as int,
                        *entry,
                    ) && !lump_aligned(*entry, FACE_WIDTH as int))
                    &&& (e == BspError::TruncatedLump || e == BspError::MisalignedLump)
                },
            },
    {
        let n = match lump_record_count(self.data.len(), entry, FACE_WIDTH) {
            Ok(n) => n,
            Err(e) => {
                return Err(e);
            },
        };
        let mut out: Vec<Face> = Vec::new();
        let mut i: usize = 0;
        while i < n
            invariant
                i <= n,
                n * FACE_WIDTH == entry.size,
                lump_in_bounds(self.data@.len() as int, *entry),
                self.data@.len() <= usize::MAX,
                out@.len() == i,
                forall|j: int|
                    0 <= j < i ==> out@[j] == face_at(self.data@, entry.offset + FACE_WIDTH * j),
            decreases n - i,
        {
            let pos = entry.offset as usize + i * FACE_WIDTH;
            let plane_id = read_u16_le(&self.data, pos);
            let side = read_u16_le(&self.data, pos + 2);
            let ledge_id = read_i32_le(&self.data, pos + 4);
            let ledge_num = read_u16_le(&self.data, pos + 8);
            let texinfo_id = read_u16_le(&self.data, pos + 10);
            let typelight = self.data[pos + 12];
            let baselight = self.data[pos + 13];
            let light0 = self.data[pos + 14];
            let light1 = self.data[pos + 15];
            let lightmap = read_i32_le(&self.data, pos + 16);
            out.push(
                Face {
                    plane_id,
                    side,
                    ledge_id,
                    ledge_num,
                    texinfo_id,
                    typelight,
                    baselight,
                    light0,
                    light1,
                    lightmap,
                },
            );
            i = i + 1;
        }
        Ok(out)
    }

    /// Decodes the planes lump located by `entry`: normal, distance and
    /// axis-kind per record.
    pub fn read_planes(&self, entry: &BspEntry) -> (r: Result<Vec<Plane>, BspError>)
        ensures
            match r {
                Ok(v) => {
                    &&& lump_in_bounds(self@.len() as int, *entry)
                    &&& lump_aligned(*entry, PLANE_WIDTH as int)
                    &&& v@.len() == record_count(*entry, PLANE_WIDTH as int)
                    &&& v@.len() * PLANE_WIDTH == entry.size
                    &&& forall|i: int|
                        0 <= i < v@.len() ==> v@[i] == plane_at(
                            self@,
                            entry.offset + PLANE_WIDTH * i,
                        )
                },
                Err(e) => {
                    &&& (e == BspError::TruncatedLump <==> !lump_in_bounds(
                        self@.len() as int,
                        *entry,
                    ))
                    &&& (e == BspError::MisalignedLump <==> lump_in_bounds(
                        self@.len() as int,
                        *entry,
                    ) && !lump_aligned(*entry, PLANE_WIDTH as int))
                    &&& (e == BspError::TruncatedLump || e == BspError::MisalignedLump)
                },
            },
    {
        let n = match lump_record_count(self.data.len(), entry, PLANE_WIDTH) {
            Ok(n) => n,
            Err(e) => {
                return Err(e);
            },
        };
        let mut out: Vec<Plane> = Vec::new();
        let mut i: usize = 0;
        while i < n
            invariant
                i <= n,
                n * PLANE_WIDTH == entry.size,
                lump_in_bounds(self.data@.len() as int, *entry),
                self.data@.len() <= usize::MAX,
                out@.len() == i,
                forall|j: int|
                    0 <= j < i ==> out@[j] == plane_at(self.data@, entry.offset + PLANE_WIDTH * j),
            decreases n - i,
        {
            let pos = entry.offset as usize + i * PLANE_WIDTH;
            let normal_x_bits = read_u32_le(&self.data, pos);
            let normal_y_bits = read_u32_le(&self.data, pos + 4);
            let normal_z_bits = read_u32_le(&self.data, pos + 8);
            let dist_bits = read_u32_le(&self.data, pos + 12);
            let kind = read_u32_le(&self.data, pos + 16);
            out.push(Plane { normal_x_bits, normal_y_bits, normal_z_bits, dist_bits, kind });
            i = i + 1;
        }
        Ok(out)
    }
}

} // verus!

//! Decoder for Quake-style BSP29 level files.
//!
//! The file is held as one owned byte buffer. A header carries the version
//! word and a fixed table of fifteen directory entries, each locating a lump:
//! a contiguous byte range holding a tightly packed array of fixed-width
//! records (vertices, edges, faces, planes, ledges). Polygon geometry is
//! reconstructed from three lumps at once: a face names a run of ledges, each
//! ledge is a signed edge index whose sign selects which endpoint of the edge
//! comes first, and the chosen endpoints index the vertex array.

pub mod bsp;
pub mod bytes;
pub mod error;
pub mod geometry;
pub mod header;
pub mod lumps;

pub use bsp::Bsp;
pub use error::BspError;
pub use geometry::resolve_face_polygon;
pub use header::{BspEntry, BspHeader};
pub use lumps::{Edge, Face, Plane, Vertex};

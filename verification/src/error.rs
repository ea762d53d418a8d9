//! Errors raised while decoding a BSP file.

use vstd::prelude::*;

verus! {

/// Everything that can go wrong while decoding lumps or resolving geometry.
///
/// Decoding a static buffer is deterministic, so every failure is detected
/// eagerly and surfaced to the caller; nothing is skipped or defaulted.
#[derive(Clone, Copy, Debug, PartialEq, Eq, Structural)]
pub enum BspError {
    /// The buffer is shorter than the fixed 124-byte header.
    MalformedHeader,
    /// A directory entry's byte range runs past the end of the buffer.
    TruncatedLump,
    /// A lump's size is not a whole number of records.
    MisalignedLump,
    /// A ledge or face references an edge, vertex or ledge position beyond
    /// the decoded array.
    IndexOutOfRange,
    /// A ledge entry is zero, which the format never emits.
    InvalidLedge,
}

} // verus!

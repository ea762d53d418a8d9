//! Resolving a face's polygon boundary from the ledges, edges and vertices
//! lumps.
//!
//! A face names a contiguous run inside the ledges lump. Each ledge in the
//! run is a signed 32-bit integer: its magnitude, minus one, indexes the
//! edge array, and its sign selects the traversal direction along that
//! undirected edge — positive takes the edge's first vertex, negative its
//! second. That choice is what lets two faces share one edge with opposite
//! winding. The run's order is the polygon's winding order and is never
//! re-sorted.

use crate::error::BspError;
use crate::lumps::{Edge, Face, Vertex};
use vstd::prelude::*;

verus! {

/// The magnitude of a ledge value, as a mathematical integer (so the
/// smallest `i32` has no overflow to fear).
pub open spec fn ledge_abs(l: i32) -> int {
    if l >= 0 {
        l as int
    } else {
        -(l as int)
    }
}

/// The edge-array index a ledge refers to: the on-disk convention is
/// one-based-with-sign, so the bias of one is removed here.
pub open spec fn edge_index_of(l: i32) -> int {
    ledge_abs(l) - 1
}

/// The vertex-array index a ledge resolves to: the referenced edge's first
/// endpoint when the ledge is positive, its second when negative.
pub open spec fn vertex_index_of(l: i32, edges: Seq<Edge>) -> int {
    if l > 0 {
        edges[edge_index_of(l)].first as int
    } else {
        edges[edge_index_of(l)].second as int
    }
}

/// A ledge that resolves: nonzero, its edge index inside the edge array,
/// and the selected vertex index inside the vertex array.
pub open spec fn ledge_valid(l: i32, edges: Seq<Edge>, vertices: Seq<Vertex>) -> bool {
    &&& l != 0
    &&& edge_index_of(l) < edges.len()
    &&& vertex_index_of(l, edges) < vertices.len()
}

/// The sign-encoded direction, spelled out: a ledge greater than zero
/// resolves to the first endpoint of the edge at `ledge_abs(l) - 1`, one
/// less than zero to that edge's second endpoint.
pub proof fn lemma_ledge_direction(l: i32, edges: Seq<Edge>)
    requires
        l != 0,
        edge_index_of(l) < edges.len(),
    ensures
        l > 0 ==> vertex_index_of(l, edges) == edges[ledge_abs(l) - 1].first as int,
        l < 0 ==> vertex_index_of(l, edges) == edges[ledge_abs(l) - 1].second as int,
{
}

/// The error a single bad ledge raises: zero is `InvalidLedge` (the format
/// never emits it); any out-of-range reference is `IndexOutOfRange`.
pub open spec fn ledge_error(l: i32) -> BspError {
    if l == 0 {
        BspError::InvalidLedge
    } else {
        BspError::IndexOutOfRange
    }
}

/// The face's ledge run `[ledge_id, ledge_id + ledge_num)` lies inside the
/// ledges array.
pub open spec fn run_in_bounds(face: Face, ledges: Seq<i32>) -> bool {
    0 <= face.ledge_id && face.ledge_id + face.ledge_num <= ledges.len()
}

/// The whole resolution succeeds: the run is in bounds and every ledge in
/// it resolves.
pub open spec fn run_valid(face: Face, ledges: Seq<i32>, edges: Seq<Edge>, vertices: Seq<
    Vertex,
>) -> bool {
    &&& run_in_bounds(face, ledges)
    &&& forall|k: int|
        0 <= k < face.ledge_num ==> #[trigger] ledge_valid(
            ledges[face.ledge_id + k],
            edges,
            vertices,
        )
}

/// The error of the first bad position in `[pos, end)`, positions before
/// `pos` having resolved. Meaningful only when some position in the range
/// is bad; past the end it falls back to an arbitrary error.
pub open spec fn first_run_error(
    ledges: Seq<i32>,
    pos: int,
    end: int,
    edges: Seq<Edge>,
    vertices: Seq<Vertex>,
) -> BspError
    decreases end - pos,
{
    if pos >= end {
        BspError::IndexOutOfRange
    } else if !ledge_valid(ledges[pos], edges, vertices) {
        ledge_error(ledges[pos])
    } else {
        first_run_error(ledges, pos + 1, end, edges, vertices)
    }
}

/// The error a failed resolution reports: a run outside the ledges array
/// is `IndexOutOfRange`; otherwise the error of the run's first bad ledge,
/// since the run is scanned in order and the first failure surfaces.
pub open spec fn resolve_error(face: Face, ledges: Seq<i32>, edges: Seq<Edge>, vertices: Seq<
    Vertex,
>) -> BspError {
    if !run_in_bounds(face, ledges) {
        BspError::IndexOutOfRange
    } else {
        first_run_error(
            ledges,
            face.ledge_id as int,
            face.ledge_id + face.ledge_num,
            edges,
            vertices,
        )
    }
}

/// When positions `[pos, bad)` all resolve and `bad` does not, the first
/// error of `[pos, end)` is the bad position's own error.
proof fn lemma_first_run_error_at(
    ledges: Seq<i32>,
    pos: int,
    end: int,
    bad: int,
    edges: Seq<Edge>,
    vertices: Seq<Vertex>,
)
    requires
        pos <= bad < end,
        forall|j: int| pos <= j < bad ==> ledge_valid(ledges[j], edges, vertices),
        !ledge_valid(ledges[bad], edges, vertices),
    ensures
        first_run_error(ledges, pos, end, edges, vertices) == ledge_error(ledges[bad]),
    decreases bad - pos,
{
    if pos < bad {
        lemma_first_run_error_at(ledges, pos + 1, end, bad, edges, vertices);
    }
}

/// The same, with the run's positions counted from its start, as the
/// resolver's loop counts them.
proof fn lemma_error_at_run_position(
    ledges: Seq<i32>,
    start: int,
    count: int,
    k: int,
    edges: Seq<Edge>,
    vertices: Seq<Vertex>,
)
    requires
        0 <= start,
        0 <= k < count,
        start + count <= ledges.len(),
        forall|j: int| 0 <= j < k ==> #[trigger] ledge_valid(ledges[start + j], edges, vertices),
        !ledge_valid(ledges[start + k], edges, vertices),
    ensures
        first_run_error(ledges, start, start + count, edges, vertices) == ledge_error(
            ledges[start + k],
        ),
{
    assert forall|j: int| start <= j < start + k implies ledge_valid(ledges[j], edges, vertices) by {
        assert(ledge_valid(ledges[start + (j - start)], edges, vertices));
    }
    lemma_first_run_error_at(ledges, start, start + count, start + k, edges, vertices);
}

/// Resolves a face's polygon boundary: for each ledge of the face's run,
/// in run order, the vertex the ledge selects. The result is an ordered,
/// implicitly closed loop with one point per ledge — no deduplication and
/// no degenerate-polygon filtering. Resolution fails on the run's first
/// bad ledge: `InvalidLedge` for a zero ledge, `IndexOutOfRange` for an
/// edge or vertex reference outside the arrays, or for a run outside the
/// ledges array.
pub fn resolve_face_polygon(
    face: &Face,
    ledges: &Vec<i32>,
    edges: &Vec<Edge>,
    vertices: &Vec<Vertex>,
) -> (r: Result<Vec<Vertex>, BspError>)
    ensures
        r is Ok <==> run_valid(*face, ledges@, edges@, vertices@),
        r matches Ok(pts) ==> {
            &&& pts@.len() == face.ledge_num
            &&& forall|k: int|
                0 <= k < face.ledge_num ==> pts@[k] == vertices@[vertex_index_of(
                    ledges@[face.ledge_id + k],
                    edges@,
                )]
        },
        r matches Err(e) ==> e == resolve_error(*face, ledges@, edges@, vertices@),
{
    if face.ledge_id < 0 {
        return Err(BspError::IndexOutOfRange);
    }
    let start = face.ledge_id as usize;
    let count = face.ledge_num as usize;
    if count > ledges.len() || start > ledges.len() - count {
        return Err(BspError::IndexOutOfRange);
    }
    let mut pts: Vec<Vertex> = Vec::new();
    let mut k: usize = 0;
    while k < count
        invariant
            k <= count,
            start == face.ledge_id,
            count == face.ledge_num,
            start + count <= ledges@.len(),
            pts@.len() == k,
            forall|j: int|
                0 <= j < k ==> #[trigger] ledge_valid(ledges@[start + j], edges@, vertices@),
            forall|j: int|
                0 <= j < k ==> pts@[j] == vertices@[vertex_index_of(ledges@[start + j], edges@)],
        decreases count - k,
    {
        let l = ledges[start + k];
        if l == 0 {
            proof {
                lemma_error_at_run_position(
                    ledges@,
                    start as int,
                    count as int,
                    k as int,
                    edges@,
                    vertices@,
                );
            }
            return Err(BspError::InvalidLedge);
        }
        let magnitude: usize = if l > 0 {
            l as usize
        } else {
            (-(l as i64)) as usize
        };
        let edge_index = magnitude - 1;
        if edge_index >= edges.len() {
            proof {
                lemma_error_at_run_position(
                    ledges@,
                    start as int,
                    count as int,
                    k as int,
                    edges@,
                    vertices@,
                );
            }
            assert(!ledge_valid(ledges@[face.ledge_id + k as int], edges@, vertices@));
            return Err(BspError::IndexOutOfRange);
        }
        let edge = edges[edge_index];
        let vertex_index = if l > 0 {
            edge.first as usize
        } else {
            edge.second as usize
        };
        if vertex_index >= vertices.len() {
            proof {
                lemma_error_at_run_position(
                    ledges@,
                    start as int,
                    count as int,
                    k as int,
                    edges@,
                    vertices@,
                );
            }
            assert(!ledge_valid(ledges@[face.ledge_id + k as int], edges@, vertices@));
            return Err(BspError::IndexOutOfRange);
        }
        pts.push(vertices[vertex_index]);
        k = k + 1;
    }
    Ok(pts)
}

} // verus!

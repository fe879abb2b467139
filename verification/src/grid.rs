//! Terrain mesh topology.
//!
//! The terrain is a subdivided plane: a grid of `sx` by `sy` quads over
//! `(sx+1) * (sy+1)` shared vertices, each quad split into two triangles.
//! The index stream comes from genmesh's plane generator; its contract here
//! pins down every index, and the bounds proof shows that each one points at
//! a shared vertex of the grid.

use genmesh::generators::IndexedPolygon;
use genmesh::generators::Plane;
use genmesh::Triangulate;
use genmesh::Vertices;
use vstd::prelude::*;

verus! {

/// How many quads the demo's terrain has along each axis.
pub const TERRAIN_SUBDIVIDES: usize = 256;

/// Largest per-axis subdivision for which every vertex index fits in `u32`.
pub const MAX_SUBDIVIDES: usize = 0xFFFE;

/// How many shared vertices a grid of `sx` by `sy` quads has.
pub open spec fn vertex_count(sx: int, sy: int) -> int {
    (sx + 1) * (sy + 1)
}

/// The vertex index at position `k` of the triangle index stream of a grid
/// of `sx` by `sy` quads. The quads come in row-major order; quad `(qx, qy)`
/// has its lowest corner at `base == qy*(sx+1) + qx` and is split into the
/// triangles `(base, base+1, base+sx+2)` and `(base+sx+2, base+sx+1, base)`.
pub open spec fn plane_index_at(sx: int, sy: int, k: int) -> int {
    let q = k / 6;
    let j = k % 6;
    let qy = q / sx;
    let qx = q % sx;
    let base = qy * (sx + 1) + qx;
    if j == 0 {
        base
    } else if j == 1 {
        base + 1
    } else if j == 2 {
        base + sx + 2
    } else if j == 3 {
        base + sx + 2
    } else if j == 4 {
        base + sx + 1
    } else {
        base
    }
}

/// Relies on genmesh's plane generator: `Plane::subdivide(sx, sy)` yields
/// `sx * sy` quads in row-major order, quad `(qx, qy)` having the corner
/// indices `base, base+1, base+sx+2, base+sx+1` for `base == qy*(sx+1)+qx`,
/// and each quad triangulates into its corners `(0, 1, 2)` and `(2, 3, 0)`.
#[verifier::external_body]
fn plane_triangle_indices(sx: usize, sy: usize) -> (r: Vec<u32>)
    requires
        1 <= sx <= MAX_SUBDIVIDES,
        1 <= sy <= MAX_SUBDIVIDES,
    ensures
        r@.len() == 6 * sx * sy,
        forall|k: int| 0 <= k < r@.len() ==> r@[k] as int == plane_index_at(sx as int, sy as int, k),
{
    Plane::subdivide(sx, sy)
        .indexed_polygon_iter()
        .triangulate()
        .vertices()
        .map(|i| i as u32)
        .collect()
}

/// Every index of the stream points at a shared vertex of the grid.
pub proof fn lemma_plane_index_in_bounds(sx: int, sy: int, k: int)
    requires
        1 <= sx,
        1 <= sy,
        0 <= k < 6 * sx * sy,
    ensures
        0 <= plane_index_at(sx, sy, k) && plane_index_at(sx, sy, k) < vertex_count(sx, sy),
{
    let q = k / 6;
    let qy = q / sx;
    let qx = q % sx;
    assert(0 <= q && q < sx * sy) by (nonlinear_arith)
        requires 0 <= k < 6 * sx * sy && q == k / 6,
    ;
    assert(0 <= qx < sx && 0 <= qy <= sy - 1) by (nonlinear_arith)
        requires 0 <= q < sx * sy && 1 <= sx && qy == q / sx && qx == q % sx,
    ;
    assert(0 <= qy * (sx + 1) + qx && qy * (sx + 1) + qx + sx + 2 < (sx + 1) * (sy + 1))
        by (nonlinear_arith)
        requires 0 <= qx <= sx - 1 && 0 <= qy <= sy - 1 && 1 <= sx && 1 <= sy,
    ;
}

/// The six indices of each quad form two triangles that share the quad's
/// diagonal: positions 2 and 3 agree, and position 5 closes back on the
/// quad's first corner.
pub proof fn lemma_quad_triangles(sx: int, sy: int, q: int)
    requires
        1 <= sx,
        1 <= sy,
        0 <= q < sx * sy,
    ensures
        plane_index_at(sx, sy, 6 * q + 2) == plane_index_at(sx, sy, 6 * q + 3),
        plane_index_at(sx, sy, 6 * q + 5) == plane_index_at(sx, sy, 6 * q),
        plane_index_at(sx, sy, 6 * q + 1) == plane_index_at(sx, sy, 6 * q) + 1,
{
    assert((6 * q + 0) / 6 == q && (6 * q + 0) % 6 == 0 && (6 * q + 1) / 6 == q && (6 * q + 1) % 6
        == 1 && (6 * q + 2) / 6 == q && (6 * q + 2) % 6 == 2 && (6 * q + 3) / 6 == q && (6 * q + 3)
        % 6 == 3 && (6 * q + 5) / 6 == q && (6 * q + 5) % 6 == 5) by (nonlinear_arith)
        requires 0 <= q,
    ;
}

/// The triangle index stream of a grid of `sx` by `sy` quads, or `None`
/// where an axis is zero or too subdivided for its indices to fit in `u32`.
pub fn plane_grid_indices(sx: usize, sy: usize) -> (r: Option<Vec<u32>>)
    ensures
        match r {
            Some(v) => {
                &&& 1 <= sx <= MAX_SUBDIVIDES
                &&& 1 <= sy <= MAX_SUBDIVIDES
                &&& v@.len() == 6 * sx * sy
                &&& forall|k: int|
                    0 <= k < v@.len() ==> v@[k] as int == plane_index_at(sx as int, sy as int, k)
            },
            None => !(1 <= sx <= MAX_SUBDIVIDES && 1 <= sy <= MAX_SUBDIVIDES),
        },
{
    if 1 <= sx && sx <= MAX_SUBDIVIDES && 1 <= sy && sy <= MAX_SUBDIVIDES {
        Some(plane_triangle_indices(sx, sy))
    } else {
        None
    }
}

/// The index stream of the demo's terrain grid; every index points at one
/// of its shared vertices.
pub fn terrain_grid_indices() -> (r: Vec<u32>)
    ensures
        r@.len() == 6 * TERRAIN_SUBDIVIDES * TERRAIN_SUBDIVIDES,
        forall|k: int|
            0 <= k < r@.len()
                ==> r@[k] as int == plane_index_at(TERRAIN_SUBDIVIDES as int, TERRAIN_SUBDIVIDES as int, k),
        forall|k: int|
            0 <= k < r@.len()
                ==> 0 <= r@[k] as int && (r@[k] as int) < vertex_count(TERRAIN_SUBDIVIDES as int, TERRAIN_SUBDIVIDES as int),
{
    let r = plane_triangle_indices(TERRAIN_SUBDIVIDES, TERRAIN_SUBDIVIDES);
    proof {
        assert forall|k: int|
            0 <= k < r@.len()
                implies 0 <= r@[k] as int && (r@[k] as int) < vertex_count(TERRAIN_SUBDIVIDES as int, TERRAIN_SUBDIVIDES as int)
        by {
            lemma_plane_index_in_bounds(TERRAIN_SUBDIVIDES as int, TERRAIN_SUBDIVIDES as int, k);
        }
    }
    r
}

} // verus!

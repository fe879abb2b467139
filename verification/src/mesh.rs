//! Static meshes.
//!
//! The light pass draws each light as a unit cube, and the final pass blits
//! a full-screen quad. Both meshes are fixed integer data: the cube has 24
//! vertices (4 per face) and 36 indices (2 triangles per face), the quad has
//! 6 vertices with texture coordinates.

use vstd::prelude::*;

verus! {

/// A corner of the light cube, on the integer lattice `{-1, 1}^3`.
#[derive(Clone, Copy, Debug, PartialEq, Eq, Structural)]
pub struct CubeVertex {
    pub x: i8,
    pub y: i8,
    pub z: i8,
}

/// A corner of the full-screen quad: a position on the near plane and a
/// texture coordinate.
#[derive(Clone, Copy, Debug, PartialEq, Eq, Structural)]
pub struct BlitVertex {
    pub x: i8,
    pub y: i8,
    pub z: i8,
    pub u: u8,
    pub v: u8,
}

/// The cube's 24 vertices: for each face in the order top, bottom, right,
/// left, front, back, its 4 corners counter-clockwise seen from outside.
pub open spec fn cube_vertex_data() -> Seq<CubeVertex> {
    seq![
        CubeVertex { x: -1i8, y: -1i8, z: 1i8 },
        CubeVertex { x: 1i8, y: -1i8, z: 1i8 },
        CubeVertex { x: 1i8, y: 1i8, z: 1i8 },
        CubeVertex { x: -1i8, y: 1i8, z: 1i8 },
        CubeVertex { x: -1i8, y: 1i8, z: -1i8 },
        CubeVertex { x: 1i8, y: 1i8, z: -1i8 },
        CubeVertex { x: 1i8, y: -1i8, z: -1i8 },
        CubeVertex { x: -1i8, y: -1i8, z: -1i8 },
        CubeVertex { x: 1i8, y: -1i8, z: -1i8 },
        CubeVertex { x: 1i8, y: 1i8, z: -1i8 },
        CubeVertex { x: 1i8, y: 1i8, z: 1i8 },
        CubeVertex { x: 1i8, y: -1i8, z: 1i8 },
        CubeVertex { x: -1i8, y: -1i8, z: 1i8 },
        CubeVertex { x: -1i8, y: 1i8, z: 1i8 },
        CubeVertex { x: -1i8, y: 1i8, z: -1i8 },
        CubeVertex { x: -1i8, y: -1i8, z: -1i8 },
        CubeVertex { x: 1i8, y: 1i8, z: -1i8 },
        CubeVertex { x: -1i8, y: 1i8, z: -1i8 },
        CubeVertex { x: -1i8, y: 1i8, z: 1i8 },
        CubeVertex { x: 1i8, y: 1i8, z: 1i8 },
        CubeVertex { x: 1i8, y: -1i8, z: 1i8 },
        CubeVertex { x: -1i8, y: -1i8, z: 1i8 },
        CubeVertex { x: -1i8, y: -1i8, z: -1i8 },
        CubeVertex { x: 1i8, y: -1i8, z: -1i8 },
    ]
}

/// The cube's 36 indices: face `f` contributes the triangles
/// `(4f, 4f+1, 4f+2)` and `(4f+2, 4f+3, 4f)`.
pub open spec fn cube_index_data() -> Seq<u8> {
    seq![
        0u8, 1, 2, 2, 3, 0,
        4, 5, 6, 6, 7, 4,
        8, 9, 10, 10, 11, 8,
        12, 13, 14, 14, 15, 12,
        16, 17, 18, 18, 19, 16,
        20, 21, 22, 22, 23, 20,
    ]
}

/// The full-screen quad's 6 vertices: two triangles covering the viewport,
/// texture coordinates spanning the unit square.
pub open spec fn blit_vertex_data() -> Seq<BlitVertex> {
    seq![
        BlitVertex { x: -1i8, y: -1i8, z: 0i8, u: 0u8, v: 0u8 },
        BlitVertex { x: 1i8, y: -1i8, z: 0i8, u: 1u8, v: 0u8 },
        BlitVertex { x: 1i8, y: 1i8, z: 0i8, u: 1u8, v: 1u8 },
        BlitVertex { x: -1i8, y: -1i8, z: 0i8, u: 0u8, v: 0u8 },
        BlitVertex { x: 1i8, y: 1i8, z: 0i8, u: 1u8, v: 1u8 },
        BlitVertex { x: -1i8, y: 1i8, z: 0i8, u: 0u8, v: 1u8 },
    ]
}

/// Builds the light cube's vertex list.
pub fn cube_vertices() -> (v: Vec<CubeVertex>)
    ensures
        v@ =~= cube_vertex_data(),
{
    let mut v: Vec<CubeVertex> = Vec::new();
    v.push(CubeVertex { x: -1, y: -1, z: 1 });
    v.push(CubeVertex { x: 1, y: -1, z: 1 });
    v.push(CubeVertex { x: 1, y: 1, z: 1 });
    v.push(CubeVertex { x: -1, y: 1, z: 1 });
    v.push(CubeVertex { x: -1, y: 1, z: -1 });
    v.push(CubeVertex { x: 1, y: 1, z: -1 });
    v.push(CubeVertex { x: 1, y: -1, z: -1 });
    v.push(CubeVertex { x: -1, y: -1, z: -1 });
    v.push(CubeVertex { x: 1, y: -1, z: -1 });
    v.push(CubeVertex { x: 1, y: 1, z: -1 });
    v.push(CubeVertex { x: 1, y: 1, z: 1 });
    v.push(CubeVertex { x: 1, y: -1, z: 1 });
    v.push(CubeVertex { x: -1, y: -1, z: 1 });
    v.push(CubeVertex { x: -1, y: 1, z: 1 });
    v.push(CubeVertex { x: -1, y: 1, z: -1 });
    v.push(CubeVertex { x: -1, y: -1, z: -1 });
    v.push(CubeVertex { x: 1, y: 1, z: -1 });
    v.push(CubeVertex { x: -1, y: 1, z: -1 });
    v.push(CubeVertex { x: -1, y: 1, z: 1 });
    v.push(CubeVertex { x: 1, y: 1, z: 1 });
    v.push(CubeVertex { x: 1, y: -1, z: 1 });
    v.push(CubeVertex { x: -1, y: -1, z: 1 });
    v.push(CubeVertex { x: -1, y: -1, z: -1 });
    v.push(CubeVertex { x: 1, y: -1, z: -1 });
    v
}

/// Builds the light cube's index list.
pub fn cube_indices() -> (v: Vec<u8>)
    ensures
        v@ =~= cube_index_data(),
{
    let mut v: Vec<u8> = Vec::new();
    let mut f: u8 = 0;
    while f < 6
        invariant
            f <= 6,
            v@.len() == 6 * f,
            forall|k: int| 0 <= k < v@.len() ==> v@[k] == cube_index_data()[k],
        decreases 6 - f,
    {
        let b: u8 = 4 * f;
        v.push(b);
        v.push(b + 1);
        v.push(b + 2);
        v.push(b + 2);
        v.push(b + 3);
        v.push(b);
        f = f + 1;
    }
    proof {
        assert(v@ =~= cube_index_data());
    }
    v
}

/// Builds the full-screen quad's vertex list.
pub fn blit_vertices() -> (v: Vec<BlitVertex>)
    ensures
        v@ =~= blit_vertex_data(),
{
    let mut v: Vec<BlitVertex> = Vec::new();
    v.push(BlitVertex { x: -1, y: -1, z: 0, u: 0, v: 0 });
    v.push(BlitVertex { x: 1, y: -1, z: 0, u: 1, v: 0 });
    v.push(BlitVertex { x: 1, y: 1, z: 0, u: 1, v: 1 });
    v.push(BlitVertex { x: -1, y: -1, z: 0, u: 0, v: 0 });
    v.push(BlitVertex { x: 1, y: 1, z: 0, u: 1, v: 1 });
    v.push(BlitVertex { x: -1, y: 1, z: 0, u: 0, v: 1 });
    v
}

/// Every cube index points at one of the cube's vertices.
pub proof fn lemma_cube_indices_in_bounds()
    ensures
        forall|k: int|
            0 <= k < cube_index_data().len() ==> (cube_index_data()[k] as int)
                < cube_vertex_data().len(),
{
    assert forall|k: int| 0 <= k < cube_index_data().len() implies (cube_index_data()[k] as int)
        < cube_vertex_data().len() by {
        assert(cube_index_data().len() == 36);
        assert(cube_vertex_data().len() == 24);
    }
}

} // verus!

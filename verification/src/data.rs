//! Static geometry for the renderable mesh: a unit cube.
//!
//! Vertex coordinates are stored in half-units, so the cube spanning
//! -0.5..0.5 on every axis has all of its data as exact integers; texture
//! coordinates are 0 or 1. The GPU-side buffers are created outside the
//! library from these lists.

use vstd::prelude::*;

verus! {

/// A vertex position in half-units: a stored 1 means 0.5 world units.
#[derive(Clone, Copy, PartialEq, Eq, Structural, Debug)]
pub struct Position {
    pub x: i8,
    pub y: i8,
    pub z: i8,
}

/// A texture coordinate; each component is 0 or 1.
#[derive(Clone, Copy, PartialEq, Eq, Structural, Debug)]
pub struct TexCoord {
    pub u: u8,
    pub v: u8,
}

/// One vertex of the mesh.
#[derive(Clone, Copy, PartialEq, Eq, Structural, Debug)]
pub struct VertexData {
    pub position: Position,
    pub tex_coords: TexCoord,
}

/// The eight corners of the cube, front face first, each with the
/// texture coordinate that places the image on its faces.
pub open spec fn cube_vertices() -> Seq<VertexData> {
    seq![
        vertex(-1i8, -1i8, 1i8, 0u8, 0u8),
        vertex(1i8, -1i8, 1i8, 1u8, 0u8),
        vertex(1i8, 1i8, 1i8, 1u8, 1u8),
        vertex(-1i8, 1i8, 1i8, 0u8, 1u8),
        vertex(-1i8, -1i8, -1i8, 1u8, 0u8),
        vertex(1i8, -1i8, -1i8, 0u8, 0u8),
        vertex(1i8, 1i8, -1i8, 0u8, 1u8),
        vertex(-1i8, 1i8, -1i8, 1u8, 1u8),
    ]
}

pub open spec fn vertex(x: i8, y: i8, z: i8, u: u8, v: u8) -> VertexData {
    VertexData { position: Position { x, y, z }, tex_coords: TexCoord { u, v } }
}

/// The 36 indices of the cube: two triangles for each of the six faces.
pub open spec fn cube_indices() -> Seq<u16> {
    seq![
        0, 1, 2, 2, 3, 0, // front
        4, 5, 6, 6, 7, 4, // back
        7, 3, 0, 0, 4, 7, // left
        1, 5, 6, 6, 2, 1, // right
        4, 0, 1, 1, 5, 4, // bottom
        3, 7, 6, 6, 2, 3, // top
    ]
}

/// Every index points at one of the eight cube vertices.
pub proof fn lemma_cube_indices_in_bounds()
    ensures
        forall|i: int|
            0 <= i < cube_indices().len() ==> (#[trigger] cube_indices()[i]) < cube_vertices().len(),
{
}

/// The mathematical content of a `VertexState`: its two lists.
#[verifier::ext_equal]
pub struct MeshModel {
    pub vertices: Seq<VertexData>,
    pub indices: Seq<u16>,
}

/// The mesh of the one model this renderer draws.
pub open spec fn cube_mesh() -> MeshModel {
    MeshModel { vertices: cube_vertices(), indices: cube_indices() }
}

/// The vertex and index lists of the mesh, together with the counts that
/// the indexed-instanced draw call covers.
pub struct VertexState {
    pub vertices: Vec<VertexData>,
    pub indices: Vec<u16>,
    pub num_vertices: u32,
    pub num_indices: u32,
}

impl View for VertexState {
    type V = MeshModel;

    open spec fn view(&self) -> MeshModel {
        MeshModel { vertices: self.vertices@, indices: self.indices@ }
    }
}

impl VertexState {
    pub open spec fn wf(self) -> bool {
        &&& self@ == cube_mesh()
        &&& self.num_vertices == self.vertices@.len()
        &&& self.num_indices == self.indices@.len()
    }

    pub fn new() -> (r: VertexState)
        ensures
            r.wf(),
            r.num_vertices == 8,
            r.num_indices == 36,
    {
        let vertices = cube_vertex_list();
        let indices = cube_index_list();
        let r = VertexState { vertices, indices, num_vertices: 8, num_indices: 36 };
        proof {
            assert(r@ =~= cube_mesh());
        }
        r
    }
}

/// The vertices of `cube_vertices()` as an executable list.
pub fn cube_vertex_list() -> (r: Vec<VertexData>)
    ensures
        r@ == cube_vertices(),
{
    let mut r: Vec<VertexData> = Vec::new();
    r.push(vertex_at(-1, -1, 1, 0, 0));
    r.push(vertex_at(1, -1, 1, 1, 0));
    r.push(vertex_at(1, 1, 1, 1, 1));
    r.push(vertex_at(-1, 1, 1, 0, 1));
    r.push(vertex_at(-1, -1, -1, 1, 0));
    r.push(vertex_at(1, -1, -1, 0, 0));
    r.push(vertex_at(1, 1, -1, 0, 1));
    r.push(vertex_at(-1, 1, -1, 1, 1));
    proof {
        assert(r@ =~= cube_vertices());
    }
    r
}

fn vertex_at(x: i8, y: i8, z: i8, u: u8, v: u8) -> (r: VertexData)
    ensures
        r == vertex(x, y, z, u, v),
{
    VertexData { position: Position { x, y, z }, tex_coords: TexCoord { u, v } }
}

/// The indices of `cube_indices()` as an executable list.
pub fn cube_index_list() -> (r: Vec<u16>)
    ensures
        r@ == cube_indices(),
{
    let mut r: Vec<u16> = Vec::new();
    r.push(0);
    r.push(1);
    r.push(2);
    r.push(2);
    r.push(3);
    r.push(0);
    r.push(4);
    r.push(5);
    r.push(6);
    r.push(6);
    r.push(7);
    r.push(4);
    r.push(7);
    r.push(3);
    r.push(0);
    r.push(0);
    r.push(4);
    r.push(7);
    r.push(1);
    r.push(5);
    r.push(6);
    r.push(6);
    r.push(2);
    r.push(1);
    r.push(4);
    r.push(0);
    r.push(1);
    r.push(1);
    r.push(5);
    r.push(4);
    r.push(3);
    r.push(7);
    r.push(6);
    r.push(6);
    r.push(2);
    r.push(3);
    proof {
        assert(r@ =~= cube_indices());
    }
    r
}

} // verus!

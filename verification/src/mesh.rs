//! Meshes: indexed triangles over three-dimensional positions.

use std::marker::PhantomData;
use vstd::prelude::*;
use vstd::slice::slice_to_vec;

use crate::vertex::{DrawArrays, DrawElements, VertexArray};

verus! {

/// OpenGL's name for drawing triangles.
pub const TRIANGLES: u32 = 0x0004;

/// OpenGL's name for indices of 32 bits without sign.
pub const UNSIGNED_INT: u32 = 0x1405;

/// What a mesh is made of, for contracts.
pub struct MeshView {
    pub indices: Seq<i32>,
    pub positions: Seq<u32>,
}

/// A mesh ready for upload: its indices, its positions, and the number of
/// vertices that a draw call takes.
#[derive(Debug, PartialEq, Eq)]
pub struct Mesh {
    indices: Vec<i32>,
    positions: Vec<u32>,
    verts_num: i32,
}

impl View for Mesh {
    type V = MeshView;

    closed spec fn view(&self) -> MeshView {
        MeshView { indices: self.indices@, positions: self.positions@ }
    }
}

impl Mesh {
    #[verifier::type_invariant]
    spec fn well_formed(self) -> bool {
        self.verts_num == self.indices@.len()
    }

    /// The indices, three for each triangle.
    pub fn indices(&self) -> (indices: &Vec<i32>)
        ensures
            indices@ == self@.indices,
    {
        &self.indices
    }

    /// The positions, three components for each vertex, each the bit pattern
    /// of a 32-bit float.
    pub fn positions(&self) -> (positions: &Vec<u32>)
        ensures
            positions@ == self@.positions,
    {
        &self.positions
    }

    /// The number of vertices that a draw call takes: one for each index.
    pub fn verts_num(&self) -> (count: i32)
        ensures
            count == self@.indices.len(),
    {
        proof {
            use_type_invariant(self);
        }
        self.verts_num
    }

    /// Describes the drawing of the mesh as triangles, vertex after vertex,
    /// through the vertex array that its buffers were attached to.
    pub fn draw_arrays(&self, vertex_array: &VertexArray) -> (call: DrawArrays)
        ensures
            call == (DrawArrays {
                vertex_array: vertex_array@,
                mode: TRIANGLES,
                first: 0,
                count: self@.indices.len() as i32,
            }),
    {
        proof {
            use_type_invariant(self);
        }
        vertex_array.draw_arrays(TRIANGLES, 0, self.verts_num)
    }

    /// Describes the drawing of the mesh as triangles through its indices,
    /// from the start of the index buffer.
    pub fn draw_elements(&self, vertex_array: &VertexArray) -> (call: DrawElements)
        ensures
            call == (DrawElements {
                vertex_array: vertex_array@,
                mode: TRIANGLES,
                count: self@.indices.len() as i32,
                indices_type: UNSIGNED_INT,
                offset: 0,
            }),
    {
        proof {
            use_type_invariant(self);
        }
        DrawElements {
            vertex_array: vertex_array.id(),
            mode: TRIANGLES,
            count: self.verts_num,
            indices_type: UNSIGNED_INT,
            offset: 0,
        }
    }
}

/// The phase of a builder's part that has not been given yet.
pub struct Empty;

/// The phase of a builder's part that has been given.
pub struct Fully;

/// Collects the parts of a mesh. The two phases in the type stand for the
/// indices and the positions; a mesh can be built once both have been given,
/// and each can be given once.
pub struct MeshBuilder<Indices, Positions> {
    indices: Vec<i32>,
    pos: Vec<u32>,
    state: (PhantomData<Indices>, PhantomData<Positions>),
}

impl<Indices, Positions> View for MeshBuilder<Indices, Positions> {
    type V = MeshView;

    closed spec fn view(&self) -> MeshView {
        MeshView { indices: self.indices@, positions: self.pos@ }
    }
}

impl MeshBuilder<Empty, Empty> {
    /// A builder with no indices and no positions.
    pub fn new() -> (builder: Self)
        ensures
            builder@ == (MeshView { indices: Seq::empty(), positions: Seq::empty() }),
    {
        MeshBuilder { indices: Vec::new(), pos: Vec::new(), state: (PhantomData, PhantomData) }
    }
}

impl MeshBuilder<Fully, Fully> {
    /// The mesh of the parts collected; none if there are more indices than a
    /// draw call can count.
    pub fn build(self) -> (mesh: Option<Mesh>)
        ensures
            self@.indices.len() <= i32::MAX ==> (mesh matches Some(m) && m@ == self@),
            self@.indices.len() > i32::MAX ==> mesh is None,
    {
        if self.indices.len() > 0x7fff_ffff {
            return None;
        }
        let verts_num: i32 = self.indices.len() as i32;
        Some(Mesh { indices: self.indices, positions: self.pos, verts_num })
    }
}

impl<Positions> MeshBuilder<Empty, Positions> {
    /// Gives the indices.
    pub fn indices(self, indices: &[i32]) -> (builder: MeshBuilder<Fully, Positions>)
        ensures
            builder@ == (MeshView { indices: indices@, ..self@ }),
    {
        MeshBuilder {
            indices: slice_to_vec(indices),
            pos: self.pos,
            state: (PhantomData, PhantomData),
        }
    }
}

impl<Indices> MeshBuilder<Indices, Empty> {
    /// Gives the positions, each component as the bit pattern of a 32-bit
    /// float.
    pub fn positions(self, pos: &[u32]) -> (builder: MeshBuilder<Indices, Fully>)
        ensures
            builder@ == (MeshView { positions: pos@, ..self@ }),
    {
        MeshBuilder {
            indices: self.indices,
            pos: slice_to_vec(pos),
            state: (PhantomData, PhantomData),
        }
    }
}

} // verus!

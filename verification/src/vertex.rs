//! Vertex array objects and the draw calls made through them.

use vstd::prelude::*;

use crate::buffer::FLOAT_SIZE;

verus! {

/// A vertex array object, by the name the driver gave it.
#[derive(Debug, PartialEq, Eq)]
pub struct VertexArray {
    id: u32,
}

impl View for VertexArray {
    type V = u32;

    closed spec fn view(&self) -> u32 {
        self.id
    }
}

/// A draw call that takes consecutive vertices.
#[derive(Clone, Copy, Debug, PartialEq, Eq)]
pub struct DrawArrays {
    pub vertex_array: u32,
    pub mode: u32,
    pub first: i32,
    pub count: i32,
}

/// A draw call that takes its vertices through an index buffer, starting
/// `offset` bytes into it.
#[derive(Clone, Copy, Debug, PartialEq, Eq)]
pub struct DrawElements {
    pub vertex_array: u32,
    pub mode: u32,
    pub count: i32,
    pub indices_type: u32,
    pub offset: usize,
}

impl VertexArray {
    /// The vertex array that the driver named `id`.
    pub fn new(id: u32) -> (vertex_array: VertexArray)
        ensures
            vertex_array@ == id,
    {
        VertexArray { id }
    }

    /// The driver's name for the vertex array.
    pub fn id(&self) -> (id: u32)
        ensures
            id == self@,
    {
        self.id
    }

    /// Describes the drawing of `count` vertices from `first` on.
    pub fn draw_arrays(&self, mode: u32, first: i32, count: i32) -> (call: DrawArrays)
        ensures
            call == (DrawArrays { vertex_array: self@, mode, first, count }),
    {
        DrawArrays { vertex_array: self.id, mode, first, count }
    }

    /// Describes the drawing of `count` indexed vertices. `offset` is counted
    /// in units of four bytes and handed on in bytes; none if that does not
    /// fit.
    pub fn draw_elements(&self, mode: u32, count: i32, indices_type: u32, offset: usize) -> (call:
        Option<DrawElements>)
        ensures
            offset * FLOAT_SIZE <= usize::MAX ==> call == Some(
                DrawElements {
                    vertex_array: self@,
                    mode,
                    count,
                    indices_type,
                    offset: (offset * FLOAT_SIZE) as usize,
                },
            ),
            offset * FLOAT_SIZE > usize::MAX ==> call is None,
    {
        match offset.checked_mul(FLOAT_SIZE) {
            Some(bytes) => Some(
                DrawElements { vertex_array: self.id, mode, count, indices_type, offset: bytes },
            ),
            None => None,
        }
    }
}

} // verus!

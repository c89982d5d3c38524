//! Buffer objects: sizes and layouts in bytes.

use vstd::prelude::*;

verus! {

/// The size of one vertex component, a 32-bit float, in bytes.
pub const FLOAT_SIZE: usize = 4;

/// A buffer object, by the name the driver gave it and the target it is bound
/// to.
#[derive(Debug, PartialEq, Eq)]
pub struct Buffer {
    id: u32,
    target: u32,
}

/// What a [`Buffer`] holds, for contracts.
pub struct BufferView {
    pub id: u32,
    pub target: u32,
}

impl View for Buffer {
    type V = BufferView;

    closed spec fn view(&self) -> BufferView {
        BufferView { id: self.id, target: self.target }
    }
}

/// How one vertex attribute is read from a buffer: which buffer, which
/// attribute, how many float components, and the stride and the offset in
/// bytes.
#[derive(Clone, Copy, Debug, PartialEq, Eq)]
pub struct VertexAttrib {
    pub buffer: u32,
    pub target: u32,
    pub index: u32,
    pub size: i32,
    pub stride: i32,
    pub offset: usize,
}

impl Buffer {
    /// The buffer that the driver named `id`, bound to `target`.
    pub fn new(id: u32, target: u32) -> (buffer: Buffer)
        ensures
            buffer@ == (BufferView { id, target }),
    {
        Buffer { id, target }
    }

    /// The driver's name for the buffer.
    pub fn id(&self) -> (id: u32)
        ensures
            id == self@.id,
    {
        self.id
    }

    /// The target that the buffer is bound to.
    pub fn target(&self) -> (target: u32)
        ensures
            target == self@.target,
    {
        self.target
    }

    /// The size in bytes of `len` elements of `element_size` bytes each, as the
    /// driver takes it; none if the size does not fit the driver's signed size.
    pub fn data_size(len: usize, element_size: usize) -> (size: Option<isize>)
        ensures
            len * element_size <= isize::MAX ==> size == Some((len * element_size) as isize),
            len * element_size > isize::MAX ==> size is None,
    {
        match len.checked_mul(element_size) {
            Some(bytes) => if bytes <= isize::MAX as usize {
                Some(bytes as isize)
            } else {
                None
            },
            None => None,
        }
    }

    /// Describes the attribute `index` of `size` float components that is
    /// read from this buffer. `stride` and `offset` are counted in floats and
    /// handed on in bytes; none if either does not fit the driver's type.
    pub fn vertex_input_attrib(&self, index: u32, size: i32, stride: usize, offset: usize) -> (attrib:
        Option<VertexAttrib>)
        ensures
            stride * FLOAT_SIZE <= i32::MAX && offset * FLOAT_SIZE <= usize::MAX ==> attrib == Some(
                VertexAttrib {
                    buffer: self@.id,
                    target: self@.target,
                    index,
                    size,
                    stride: (stride * FLOAT_SIZE) as i32,
                    offset: (offset * FLOAT_SIZE) as usize,
                },
            ),
            !(stride * FLOAT_SIZE <= i32::MAX && offset * FLOAT_SIZE <= usize::MAX) ==> attrib
                is None,
    {
        let stride_bytes: usize = match stride.checked_mul(FLOAT_SIZE) {
            Some(bytes) => bytes,
            None => { return None; },
        };
        if stride_bytes > 0x7fff_ffff {
            return None;
        }
        let offset_bytes: usize = match offset.checked_mul(FLOAT_SIZE) {
            Some(bytes) => bytes,
            None => { return None; },
        };
        Some(
            VertexAttrib {
                buffer: self.id,
                target: self.target,
                index,
                size,
                stride: stride_bytes as i32,
                offset: offset_bytes,
            },
        )
    }
}

} // verus!

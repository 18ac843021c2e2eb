use vstd::prelude::*;

verus! {

/// Where one shape's indices, vertices and instances lie in the shared buffers.
#[derive(Clone, Copy, Debug, PartialEq, Eq, Structural)]
pub struct Shape {
    pub index_buffer_index: u64,
    pub vertex_buffer_index: usize,
    pub index_buffer_len: usize,
    pub vertex_buffer_len: usize,
    pub instance_buffer_index: usize,
    pub instance_buffer_len: usize,
}

/// The shapes to draw in one frame.
pub struct DrawInstructions {
    pub shapes: Vec<Shape>,
}

} // verus!

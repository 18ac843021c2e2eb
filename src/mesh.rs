use vstd::prelude::*;

verus! {

/// The index list of a mesh, in either width.
pub enum Indices {
    U16(Vec<u16>),
    U32(Vec<u32>),
}

/// How the vertices of a mesh are assembled.
#[derive(Clone, Copy, Debug, PartialEq, Eq, Structural)]
pub enum PrimitiveTopology {
    PointList,
    LineList,
    LineStrip,
    TriangleList,
    TriangleStrip,
}

/// The topology that a glTF primitive mode names: points, lines, line strip, triangles
/// and triangle strip are codes 0, 1, 3, 4 and 5. Line loops (2) and triangle fans (6)
/// have no topology here.
pub open spec fn topology_of(mode: u32) -> Option<PrimitiveTopology> {
    if mode == 0 {
        Some(PrimitiveTopology::PointList)
    } else if mode == 1 {
        Some(PrimitiveTopology::LineList)
    } else if mode == 3 {
        Some(PrimitiveTopology::LineStrip)
    } else if mode == 4 {
        Some(PrimitiveTopology::TriangleList)
    } else if mode == 5 {
        Some(PrimitiveTopology::TriangleStrip)
    } else {
        None
    }
}

impl PrimitiveTopology {
    /// The topology of a glTF primitive mode; the mode must have one.
    pub fn from_mode(mode: u32) -> (r: PrimitiveTopology)
        requires
            topology_of(mode) is Some,
        ensures
            topology_of(mode) == Some(r),
    {
        if mode == 0 {
            PrimitiveTopology::PointList
        } else if mode == 1 {
            PrimitiveTopology::LineList
        } else if mode == 3 {
            PrimitiveTopology::LineStrip
        } else if mode == 4 {
            PrimitiveTopology::TriangleList
        } else {
            PrimitiveTopology::TriangleStrip
        }
    }
}

} // verus!

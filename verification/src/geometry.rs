//! Parameters of the procedural mesh and the shape of the draw calls that
//! the uploaded geometry buffers support.

use vstd::prelude::*;

verus! {

/// Parameters the procedural mesh generator is called with. The radius moves
/// in steps of a tenth of a unit, so it is stored as a count of tenths; the
/// segment counts are the generator's grid resolution.
#[derive(Clone, Copy, Debug, PartialEq, Eq, Structural)]
pub struct MeshParams {
    pub radius_tenths: i32,
    pub u_segments: u16,
    pub v_segments: u16,
}

/// What the geometry buffers hold and how they are drawn: a bare vertex
/// range, one indexed mesh, or an indexed mesh with a companion wireframe
/// index buffer sharing the vertex buffer.
#[derive(Clone, Copy, Debug, PartialEq, Eq, Structural)]
pub enum DrawGeometry {
    /// A vertex buffer drawn directly, `vertex_count` vertices.
    Arrays { vertex_count: u32 },
    /// One index buffer of `index_count` indices over the vertex buffer.
    Indexed { index_count: u32 },
    /// Two index buffers over one vertex buffer: the filled shape and its
    /// wireframe, each with its own pipeline and bind set.
    IndexedPair { shape_index_count: u32, wire_index_count: u32 },
}

impl DrawGeometry {
    /// Whether a wireframe companion exists, and with it the three-way
    /// display-mode toggle and the second color uniform.
    pub open spec fn spec_has_wireframe(self) -> bool {
        self is IndexedPair
    }

    /// Runtime check matching `spec_has_wireframe`.
    pub fn has_wireframe(&self) -> (r: bool)
        ensures
            r == self.spec_has_wireframe(),
    {
        match self {
            DrawGeometry::IndexedPair { .. } => true,
            _ => false,
        }
    }
}

} // verus!

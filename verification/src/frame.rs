//! The plan of one frame: which attachments the render pass is built with
//! and which draw calls it issues.

use vstd::prelude::*;

verus! {

/// Which color attachment the render pass draws to: the acquired surface
/// image directly, or the multisample target resolved into it.
#[derive(Clone, Copy, Debug, PartialEq, Eq, Structural)]
pub enum ColorAttachmentKind {
    Direct,
    Multisampled,
}

/// One draw call of the frame: the pipeline and bind set it selects, whether
/// it goes through an index buffer, and how many elements it covers —
/// indices when indexed, vertices otherwise.
#[derive(Clone, Copy, Debug, PartialEq, Eq)]
pub struct DrawCall {
    /// Index of the pipeline to set: 0 for the shape, 1 for the wireframe.
    pub pipeline: u32,
    /// Index of the bind set carrying the uniforms, if the pipeline has one.
    pub bind_group: Option<u32>,
    /// Whether the draw goes through the index buffer named by `pipeline`.
    pub indexed: bool,
    /// Number of indices drawn when `indexed`, of vertices otherwise.
    pub element_count: u32,
}

/// Everything a render pass needs decided before it is encoded.
#[derive(Clone, Debug)]
pub struct FramePlan {
    /// Color attachment choice, fixed by the sample count.
    pub color_attachment: ColorAttachmentKind,
    /// Whether a depth attachment is bound.
    pub depth_attachment: bool,
    /// The extent the surface and every size-derived attachment share.
    pub target: crate::surface::Extent,
    /// The draw calls of the pass, in order.
    pub draws: Vec<DrawCall>,
}

} // verus!

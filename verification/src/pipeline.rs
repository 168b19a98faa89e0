//! The fixed-function state of the render pipeline.
//!
//! The pipeline is built once at startup and reused unchanged for every
//! frame: one shader module with a vertex and a fragment entry stage, the
//! vertex layout of this library, one uniform-buffer binding visible to the
//! vertex stage, triangle-list topology with counter-clockwise front faces
//! and back-face culling, no depth or stencil attachment, a single sample
//! per pixel, replace-mode blending, and a color target in the surface
//! format. Compiling this description into a device pipeline happens outside
//! the library.

use vstd::prelude::*;
use crate::vertex::{VertexLayout, vertex_layout, ATTRIBUTE_COMPONENTS, COMPONENT_BYTES};

verus! {

/// How vertices are assembled into primitives.
#[derive(Clone, Copy, Debug, PartialEq, Eq, Structural)]
pub enum Topology {
    /// Every three indices form one triangle.
    TriangleList,
    /// Each index after the first two extends a strip of triangles.
    TriangleStrip,
}

/// Which winding order marks a front-facing triangle.
#[derive(Clone, Copy, Debug, PartialEq, Eq, Structural)]
pub enum FrontFace {
    /// Counter-clockwise triangles face the camera.
    CounterClockwise,
    /// Clockwise triangles face the camera.
    Clockwise,
}

/// Which triangles the rasterizer discards.
#[derive(Clone, Copy, Debug, PartialEq, Eq, Structural)]
pub enum CullMode {
    /// Nothing is culled.
    NoCulling,
    /// Front-facing triangles are discarded.
    Front,
    /// Back-facing triangles are discarded.
    Back,
}

/// How a fragment's color joins the color already in the target.
#[derive(Clone, Copy, Debug, PartialEq, Eq, Structural)]
pub enum BlendMode {
    /// The fragment replaces the target color.
    Replace,
    /// The fragment is blended by its alpha.
    AlphaBlend,
}

/// The complete fixed-function description the pipeline is compiled from.
pub struct PipelineConfig {
    /// Name of the vertex entry stage in the shader module.
    pub vertex_entry: &'static str,
    /// Name of the fragment entry stage in the shader module.
    pub fragment_entry: &'static str,
    /// Byte layout of the vertex buffer elements.
    pub vertex_layout: VertexLayout,
    /// Index of the bind group holding the transform uniform buffer.
    pub uniform_group: u32,
    /// Binding of the uniform buffer within its group.
    pub uniform_binding: u32,
    /// The uniform buffer is read by the vertex stage only.
    pub uniform_in_vertex_stage_only: bool,
    /// How vertices are assembled.
    pub topology: Topology,
    /// Winding order of front faces.
    pub front_face: FrontFace,
    /// Which faces are culled.
    pub cull_mode: CullMode,
    /// Position of the color target format in the surface's support list;
    /// it always matches the configured surface format.
    pub format_index: usize,
    /// How fragments join the color target.
    pub blend: BlendMode,
    /// Whether a depth/stencil attachment is used.
    pub has_depth_stencil: bool,
    /// Samples per pixel.
    pub sample_count: u32,
}

impl PipelineConfig {
    /// The fixed shape this system's pipeline always has, whatever the
    /// surface format is.
    pub open spec fn wf(&self) -> bool {
        &&& self.vertex_entry@ == "vs_main"@
        &&& self.fragment_entry@ == "fs_main"@
        &&& self.vertex_layout.wf()
        &&& self.uniform_group == 0
        &&& self.uniform_binding == 0
        &&& self.uniform_in_vertex_stage_only
        &&& self.topology == Topology::TriangleList
        &&& self.front_face == FrontFace::CounterClockwise
        &&& self.cull_mode == CullMode::Back
        &&& self.blend == BlendMode::Replace
        &&& !self.has_depth_stencil
        &&& self.sample_count == 1
    }
}

/// Describes the pipeline for a surface using the given format: the two
/// well-known shader entry stages, this library's vertex layout, one uniform
/// binding at group 0 / binding 0 for the vertex stage, triangle-list
/// topology, counter-clockwise front faces, back-face culling, replace-mode
/// blending into a color target of the surface format, no depth/stencil,
/// and one sample per pixel.
pub fn pipeline_config(format_index: usize) -> (r: PipelineConfig)
    ensures
        r.wf(),
        r.format_index == format_index,
        r.vertex_layout.stride == 2 * ATTRIBUTE_COMPONENTS * COMPONENT_BYTES,
        r.vertex_layout.attributes@.len() == 2,
{
    PipelineConfig {
        vertex_entry: "vs_main",
        fragment_entry: "fs_main",
        vertex_layout: vertex_layout(),
        uniform_group: 0,
        uniform_binding: 0,
        uniform_in_vertex_stage_only: true,
        topology: Topology::TriangleList,
        front_face: FrontFace::CounterClockwise,
        cull_mode: CullMode::Back,
        format_index,
        blend: BlendMode::Replace,
        has_depth_stencil: false,
        sample_count: 1,
    }
}

} // verus!

//! The vertex binary layout contract.
//!
//! Each vertex is a position followed by a color, both three 32-bit
//! components. The pipeline consumes vertices by this exact byte layout:
//! stride, per-attribute offset, shader location and component format. The
//! layout is fixed at pipeline creation and may never change afterwards
//! without rebuilding the pipeline.

use vstd::prelude::*;

verus! {

/// Bytes in one 32-bit component.
pub const COMPONENT_BYTES: u32 = 4;

/// Components in one vertex attribute (a 3-vector).
pub const ATTRIBUTE_COMPONENTS: u32 = 3;

/// The component format of a vertex attribute.
#[derive(Clone, Copy, Debug, PartialEq, Eq, Structural)]
pub enum AttributeFormat {
    /// Three consecutive 32-bit floating-point components.
    Float32x3,
}

/// Bytes one attribute occupies.
pub open spec fn attribute_bytes(format: AttributeFormat) -> int {
    match format {
        AttributeFormat::Float32x3 => 12,
    }
}

/// One vertex attribute: where it starts inside the vertex, which shader
/// input slot receives it, and its component format.
#[derive(Clone, Copy, Debug, PartialEq, Eq, Structural)]
pub struct VertexAttribute {
    /// Byte offset of the attribute from the start of the vertex.
    pub offset: u32,
    /// Shader input slot the attribute is bound to.
    pub shader_location: u32,
    /// Component format of the attribute.
    pub format: AttributeFormat,
}

/// The byte layout of one vertex buffer element.
pub struct VertexLayout {
    /// Bytes from one vertex to the next.
    pub stride: u32,
    /// The attributes of one vertex, in declaration order.
    pub attributes: Vec<VertexAttribute>,
}

impl VertexLayout {
    /// The layout is consistent: attributes are laid out back to back from
    /// offset zero, every attribute lies inside the stride, and shader
    /// locations are the attribute positions.
    pub open spec fn wf(&self) -> bool {
        &&& forall|i: int| 0 <= i < self.attributes@.len() ==> {
            &&& (#[trigger] self.attributes@[i]).shader_location == i
            &&& self.attributes@[i].offset + attribute_bytes(self.attributes@[i].format)
                <= self.stride
        }
        &&& forall|i: int| 0 < i < self.attributes@.len() ==> (#[trigger] self.attributes@[i]).offset
            == self.attributes@[i - 1].offset + attribute_bytes(self.attributes@[i - 1].format)
        &&& self.attributes@.len() > 0 ==> self.attributes@[0].offset == 0
    }
}

/// The layout the pipeline is built with: a 24-byte vertex holding a
/// position at offset 0 bound to shader location 0, and a color at offset 12
/// bound to shader location 1, both three 32-bit components.
pub fn vertex_layout() -> (r: VertexLayout)
    ensures
        r.wf(),
        r.stride == 2 * ATTRIBUTE_COMPONENTS * COMPONENT_BYTES,
        r.attributes@.len() == 2,
        r.attributes@[0] == (VertexAttribute {
            offset: 0,
            shader_location: 0,
            format: AttributeFormat::Float32x3,
        }),
        r.attributes@[1] == (VertexAttribute {
            offset: (ATTRIBUTE_COMPONENTS * COMPONENT_BYTES) as u32,
            shader_location: 1,
            format: AttributeFormat::Float32x3,
        }),
{
    let position_bytes = ATTRIBUTE_COMPONENTS * COMPONENT_BYTES;
    let mut attributes: Vec<VertexAttribute> = Vec::new();
    attributes.push(VertexAttribute {
        offset: 0,
        shader_location: 0,
        format: AttributeFormat::Float32x3,
    });
    attributes.push(VertexAttribute {
        offset: position_bytes,
        shader_location: 1,
        format: AttributeFormat::Float32x3,
    });
    VertexLayout { stride: 2 * position_bytes, attributes }
}

} // verus!

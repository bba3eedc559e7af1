//! The pipeline bundle: the data that fixes how vertices are fed and
//! blended. Shader bytecode is produced by the external shader
//! compiler; the shader modules built from it are transient — created,
//! used for pipeline assembly, destroyed at once — which the resource
//! ledger checks.

use vstd::prelude::*;
use crate::swapchain::PixelFormat;

verus! {

/// Bytes of one 2D point as the vertex shader reads it: two 32-bit
/// floating-point coordinates.
pub const VERTEX_STRIDE: u32 = 8;

/// Backend code of the two-channel 32-bit floating-point attribute
/// format, in the Vulkan numbering the backends mirror.
pub const RG32_FLOAT_CODE: u32 = 103;

/// A push-constant range reserved for a shader stage.
#[derive(Clone, Copy, PartialEq, Eq, Structural, Debug)]
pub struct PushConstantRange {
    /// The range belongs to the vertex stage.
    pub vertex_stage: bool,
    /// First byte of the range.
    pub start: u32,
    /// One past the last byte of the range.
    pub end: u32,
}

/// One vertex buffer binding.
#[derive(Clone, Copy, PartialEq, Eq, Structural, Debug)]
pub struct VertexBufferBinding {
    /// Binding slot.
    pub binding: u32,
    /// Bytes between consecutive vertices.
    pub stride: u32,
    /// Per-vertex stepping (0), not per-instance.
    pub rate: u32,
}

/// One vertex attribute fed to the shader.
#[derive(Clone, Copy, PartialEq, Eq, Structural, Debug)]
pub struct VertexAttribute {
    /// Shader input location.
    pub location: u32,
    /// Vertex buffer binding the attribute reads from.
    pub binding: u32,
    /// Backend format code of the attribute data.
    pub format_code: u32,
    /// Byte offset inside one vertex.
    pub offset: u32,
}

/// The graphics pipeline's fixed-function description, tied to one
/// render pass and therefore to one surface format.
#[derive(Clone, Copy, PartialEq, Eq, Structural, Debug)]
pub struct PipelineState {
    /// Format of the render pass the pipeline is built against.
    pub pass_format: PixelFormat,
    /// Number of descriptor set layouts in the pipeline layout.
    pub descriptor_set_layouts: usize,
    /// The reserved push-constant range for the vertex stage.
    pub push_constants: PushConstantRange,
    /// The single vertex buffer binding.
    pub vertex_buffer: VertexBufferBinding,
    /// The single vertex attribute.
    pub attribute: VertexAttribute,
    /// Triangle-list primitive assembly.
    pub triangle_list: bool,
    /// Fill rasterization (no wireframe).
    pub fill_rasterization: bool,
    /// Standard alpha blending on the single color target.
    pub alpha_blending: bool,
}

/// The pipeline description as a function of the render pass format and
/// the descriptor set layouts handed in: one vertex buffer at binding 0
/// with the stride of one 2D point, one two-float attribute at location
/// 0 and offset 0, a small vertex-stage push-constant range, triangle
/// list, fill rasterization, alpha blending.
pub open spec fn spec_pipeline(format: PixelFormat, descriptor_set_layouts: usize) -> PipelineState {
    PipelineState {
        pass_format: format,
        descriptor_set_layouts,
        push_constants: PushConstantRange { vertex_stage: true, start: 0u32, end: 8u32 },
        vertex_buffer: VertexBufferBinding { binding: 0u32, stride: VERTEX_STRIDE, rate: 0u32 },
        attribute: VertexAttribute {
            location: 0u32,
            binding: 0u32,
            format_code: RG32_FLOAT_CODE,
            offset: 0u32,
        },
        triangle_list: true,
        fill_rasterization: true,
        alpha_blending: true,
    }
}

impl PipelineState {
    /// Builds the pipeline description against the given render pass
    /// format with the given number of descriptor set layouts. The
    /// caller compiles the shaders and assembles the GPU object; the
    /// two shader modules must not outlive that assembly.
    pub fn new(format: PixelFormat, descriptor_set_layouts: usize) -> (r: PipelineState)
        ensures
            r == spec_pipeline(format, descriptor_set_layouts),
    {
        PipelineState {
            pass_format: format,
            descriptor_set_layouts,
            push_constants: PushConstantRange { vertex_stage: true, start: 0, end: 8 },
            vertex_buffer: VertexBufferBinding { binding: 0, stride: VERTEX_STRIDE, rate: 0 },
            attribute: VertexAttribute {
                location: 0,
                binding: 0,
                format_code: RG32_FLOAT_CODE,
                offset: 0,
            },
            triangle_list: true,
            fill_rasterization: true,
            alpha_blending: true,
        }
    }
}

} // verus!

//! What one renderable is made of: its shader sources, inputs and draw
//! mode. The single renderable this system draws is the hexagon — six
//! triangles, eighteen vertices, drawn as a triangle list.

use vstd::prelude::*;
use crate::geometry::Vertex;

verus! {

/// How a buffer input is used.
#[derive(Clone, Copy, PartialEq, Eq, Structural, Debug)]
pub enum BufferUsage {
    Vertex,
    Uniform,
}

/// How the vertex stream is assembled into primitives.
#[derive(Clone, Copy, PartialEq, Eq, Structural, Debug)]
pub enum PrimitiveMode {
    PointList,
    LineList,
    TriangleList,
}

/// One buffer input of a renderable: where it lands and what it holds.
#[derive(Clone, PartialEq, Eq, Debug)]
pub struct InputDescriptor {
    /// Shader input location.
    pub location: usize,
    /// How the buffer is used.
    pub buffer_type: BufferUsage,
    /// The vertices uploaded into the buffer.
    pub vertices: Vec<Vertex>,
}

/// A renderable: shader sources, inputs, and how much to draw.
#[derive(Clone, PartialEq, Eq, Debug)]
pub struct RenderableDefinition {
    /// Stable identifier chosen by the caller.
    pub id: String,
    /// Fragment shader source text, from the external shader loader.
    pub fragment_shader: String,
    /// Vertex shader source text, from the external shader loader.
    pub vertex_shader: String,
    /// The renderable's buffer inputs.
    pub inputs: Vec<InputDescriptor>,
    /// How the vertex stream is assembled.
    pub draw_mode: PrimitiveMode,
    /// How many vertices one draw covers.
    pub vertices_to_render: usize,
}

/// The hexagon renderable: a triangle list over all eighteen vertices
/// of the static geometry, with the given shader sources.
pub fn hex_definition(vertex_shader: String, fragment_shader: String) -> (d: RenderableDefinition)
    ensures
        d.id@ == "hex"@,
        d.fragment_shader == fragment_shader,
        d.vertex_shader == vertex_shader,
        d.inputs@.len() == 0,
        d.draw_mode is TriangleList,
        d.vertices_to_render == crate::geometry::hex_seq().len(),
{
    proof {
        assert(crate::geometry::hex_seq().len() == 18);
    }
    RenderableDefinition {
        id: "hex".to_string(),
        fragment_shader,
        vertex_shader,
        inputs: Vec::new(),
        draw_mode: PrimitiveMode::TriangleList,
        vertices_to_render: 18,
    }
}

} // verus!

//! The vertex of the mesh pass and how its fields lie in a vertex buffer.

use vstd::prelude::*;

verus! {

/// The format of one vertex attribute.
#[derive(Clone, Copy, Debug, PartialEq, Eq, Structural)]
pub enum VertexFormat {
    /// Two single-precision floats.
    Float32x2,
    /// Three single-precision floats.
    Float32x3,
}

impl VertexFormat {
    /// The number of bytes that an attribute of this format takes.
    pub open spec fn spec_size(self) -> u64 {
        match self {
            VertexFormat::Float32x2 => 8,
            VertexFormat::Float32x3 => 12,
        }
    }

    /// The number of bytes that an attribute of this format takes.
    #[verifier::when_used_as_spec(spec_size)]
    pub fn size(self) -> (size: u64)
        ensures
            size == self.spec_size(),
    {
        match self {
            VertexFormat::Float32x2 => 8,
            VertexFormat::Float32x3 => 12,
        }
    }
}

/// Whether a buffer is stepped through once per vertex or once per instance.
#[derive(Clone, Copy, Debug, PartialEq, Eq, Structural)]
pub enum VertexStepMode {
    Vertex,
    Instance,
}

/// One attribute of a vertex: where it starts within the vertex, which
/// shader input it feeds, and its format.
#[derive(Clone, Copy, Debug, PartialEq, Eq, Structural)]
pub struct VertexAttribute {
    pub format: VertexFormat,
    pub offset: u64,
    pub shader_location: u32,
}

/// How the vertices lie in a vertex buffer.
#[derive(Clone, Debug, PartialEq, Eq)]
pub struct VertexBufferLayout {
    /// The number of bytes from one vertex to the next.
    pub array_stride: u64,
    pub step_mode: VertexStepMode,
    pub attributes: Vec<VertexAttribute>,
}

/// The number of bytes that the first `count` attributes take together.
pub open spec fn bytes_before(attributes: Seq<VertexAttribute>, count: int) -> int
    decreases count,
{
    if count <= 0 {
        0
    } else {
        bytes_before(attributes, count - 1) + attributes[count - 1].format.size()
    }
}

impl VertexBufferLayout {
    /// The attributes follow one another without a gap, feed the shader
    /// inputs 0, 1, 2 and so on in their order, and fill the stride.
    pub open spec fn packed(self) -> bool {
        &&& forall|i: int|
            0 <= i < self.attributes@.len() ==> {
                &&& (#[trigger] self.attributes@[i]).offset == bytes_before(self.attributes@, i)
                &&& self.attributes@[i].shader_location == i
            }
        &&& self.array_stride == bytes_before(self.attributes@, self.attributes@.len() as int)
    }
}

/// A vertex of the mesh: a position and a texture coordinate, each
/// component held as the bits of a single-precision float.
#[derive(Clone, Copy, Debug, PartialEq, Eq)]
pub struct Vertex {
    pub position: [u32; 3],
    pub tex_coords: [u32; 2],
}

impl Vertex {
    /// The layout of a buffer of vertices: the position at shader input 0,
    /// the texture coordinate behind it at shader input 1, 20 bytes a vertex.
    pub fn desc() -> (layout: VertexBufferLayout)
        ensures
            layout.array_stride == 20,
            layout.step_mode == VertexStepMode::Vertex,
            layout.attributes@ == seq![
                VertexAttribute { format: VertexFormat::Float32x3, offset: 0, shader_location: 0 },
                VertexAttribute { format: VertexFormat::Float32x2, offset: 12, shader_location: 1 },
            ],
            layout.packed(),
    {
        let position = VertexFormat::Float32x3;
        let tex_coords = VertexFormat::Float32x2;
        let mut attributes: Vec<VertexAttribute> = Vec::new();
        attributes.push(VertexAttribute { format: position, offset: 0, shader_location: 0 });
        attributes.push(
            VertexAttribute { format: tex_coords, offset: position.size(), shader_location: 1 },
        );
        let layout = VertexBufferLayout {
            array_stride: position.size() + tex_coords.size(),
            step_mode: VertexStepMode::Vertex,
            attributes,
        };
        proof {
            reveal_with_fuel(bytes_before, 3);
        }
        layout
    }
}

} // verus!

//! The scene's side of the interface: what a model hands to the renderer,
//! as plain values.

use vstd::prelude::*;

use crate::gl_const::{
    line_loop_code, line_strip_code, lines_code, points_code, triangle_fan_code,
    triangle_strip_code, triangles_code,
};

verus! {

/// The scalar type of one element of a buffer view.
#[derive(Debug, Clone, Copy, PartialEq, Eq, Structural)]
pub enum BufferElementType {
    /// 32-bit float
    Float32,
    /// 16-bit float
    Float16,
    /// 8-bit integer
    Int8,
    /// 16-bit integer
    Int16,
    /// 32-bit integer
    Int32,
}

impl BufferElementType {
    /// The number of bytes of one element.
    pub open spec fn byte_size(self) -> nat {
        match self {
            BufferElementType::Float32 => 4,
            BufferElementType::Float16 => 2,
            BufferElementType::Int8 => 1,
            BufferElementType::Int16 => 2,
            BufferElementType::Int32 => 4,
        }
    }

    /// Whether the type is one of the three integer widths; only these may
    /// describe indices.
    pub open spec fn is_integer(self) -> bool {
        self == BufferElementType::Int8 || self == BufferElementType::Int16 || self
            == BufferElementType::Int32
    }

    /// The driver's code for the type.
    pub open spec fn gl_code(self) -> u32 {
        match self {
            BufferElementType::Float32 => 0x1406,
            BufferElementType::Float16 => 0x140B,
            BufferElementType::Int8 => 0x1400,
            BufferElementType::Int16 => 0x1402,
            BufferElementType::Int32 => 0x1404,
        }
    }

    /// The size of one index of this type, if the type can describe indices.
    pub fn index_size(self) -> (r: Option<u64>)
        ensures
            self.is_integer() ==> r == Some(self.byte_size() as u64),
            !self.is_integer() ==> r.is_none(),
    {
        match self {
            BufferElementType::Int8 => Some(1),
            BufferElementType::Int16 => Some(2),
            BufferElementType::Int32 => Some(4),
            _ => None,
        }
    }
}

/// What a buffer view is used for: indices, or one attribute of a vertex.
#[derive(Debug, Clone, Copy, PartialEq, Eq, Structural)]
pub enum VertexAttr {
    /// Indices of the vertices that make up the primitives
    Indices,
    /// Position of the vertex
    Position,
    /// Normal at the vertex
    Normal,
    /// Color of the vertex
    Color,
    /// Tangent at the vertex
    Tangent,
    /// Joints that the vertex is bound to
    Joints,
    /// Weights of the joints
    Weights,
    /// First texture coordinates
    TexCoords0,
    /// Second texture coordinates
    TexCoords1,
    /// Third texture coordinates
    TexCoords2,
}

/// The topology of a primitive.
#[derive(Debug, Clone, Copy, PartialEq, Eq, Structural)]
pub enum PrimitiveType {
    /// Separate points
    Points,
    /// Separate lines
    Lines,
    /// A closed loop of lines
    LineLoop,
    /// An open strip of lines
    LineStrip,
    /// Separate triangles
    Triangles,
    /// A fan of triangles
    TriangleFan,
    /// A strip of triangles
    TriangleStrip,
}

impl PrimitiveType {
    /// The driver's code for the topology.
    pub open spec fn gl_code(self) -> u32 {
        match self {
            PrimitiveType::Points => 0,
            PrimitiveType::Lines => 1,
            PrimitiveType::LineLoop => 2,
            PrimitiveType::LineStrip => 3,
            PrimitiveType::Triangles => 4,
            PrimitiveType::TriangleFan => 6,
            PrimitiveType::TriangleStrip => 5,
        }
    }

    /// The driver's code for the topology.
    pub fn gl_type(self) -> (r: u32)
        ensures
            r == self.gl_code(),
    {
        match self {
            PrimitiveType::Points => points_code(),
            PrimitiveType::Lines => lines_code(),
            PrimitiveType::LineLoop => line_loop_code(),
            PrimitiveType::LineStrip => line_strip_code(),
            PrimitiveType::Triangles => triangles_code(),
            PrimitiveType::TriangleFan => triangle_fan_code(),
            PrimitiveType::TriangleStrip => triangle_strip_code(),
        }
    }
}

/// A window into a source buffer, as the scene describes it.
#[derive(Debug, Clone, Copy, PartialEq, Eq)]
pub struct ViewDescriptor {
    /// Number of elements: per vertex for an attribute (1 to 4), in all for
    /// indices
    pub count: u32,
    /// The type of each element
    pub ele_type: BufferElementType,
    /// Offset from the start of the source buffer to the first byte
    pub byte_offset: u32,
    /// Distance in bytes between vertices; 0 for tightly packed
    pub stride: u32,
}

/// One draw call of a render recipe.
#[derive(Debug, Clone, Copy, PartialEq, Eq)]
pub struct Primitive {
    /// Which vertex set of the object the primitive draws from
    pub vertices_index: usize,
    /// Its topology
    pub primitive_type: PrimitiveType,
    /// Number of indices to draw
    pub index_count: u32,
    /// Offset in bytes of the first index in the index buffer
    pub byte_offset: usize,
}

impl Primitive {
    /// A primitive of the given topology over a range of indices.
    pub fn new(
        primitive_type: PrimitiveType,
        vertices_index: usize,
        byte_offset: usize,
        index_count: u32,
    ) -> (r: Self)
        ensures
            r == (Primitive { vertices_index, primitive_type, index_count, byte_offset }),
    {
        Primitive { vertices_index, primitive_type, index_count, byte_offset }
    }

    /// Which vertex set the primitive draws from.
    pub fn vertices_index(&self) -> (r: usize)
        ensures
            r == self.vertices_index,
    {
        self.vertices_index
    }

    /// The topology.
    pub fn primitive_type(&self) -> (r: PrimitiveType)
        ensures
            r == self.primitive_type,
    {
        self.primitive_type
    }

    /// The number of indices.
    pub fn index_count(&self) -> (r: u32)
        ensures
            r == self.index_count,
    {
        self.index_count
    }

    /// The offset in bytes of the first index.
    pub fn byte_offset(&self) -> (r: usize)
        ensures
            r == self.byte_offset,
    {
        self.byte_offset
    }
}

/// The order in which an object is drawn: its primitives, the transform each
/// one uses, and how many transforms there are.
#[derive(Debug)]
pub struct RenderRecipe {
    /// The primitives, in drawing order
    pub primitives: Vec<Primitive>,
    /// For each primitive, the index of its transform matrix
    pub matrix_for_primitives: Vec<usize>,
    /// The number of transform matrices of the object
    pub matrix_count: usize,
}

} // verus!

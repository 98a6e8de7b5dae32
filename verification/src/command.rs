//! The calls that the driver is to make, as values.

use vstd::prelude::*;

verus! {

/// The binding point of a buffer.
#[derive(Debug, Clone, Copy, PartialEq, Eq, Structural)]
pub enum BufferTarget {
    /// Vertex attribute data
    Array,
    /// Index data
    ElementArray,
    /// Uniform block data
    Uniform,
}

/// Where the sixteen numbers of a matrix uniform come from.
#[derive(Debug, Clone, Copy, PartialEq, Eq)]
pub enum MatrixSource {
    /// The transformation of the instance that is drawn
    Instance,
    /// The matrix of the render recipe with this index
    Recipe(usize),
}

/// One call into the driver. The context collects them in the order in which
/// they must be made.
#[derive(Debug, Clone, Copy, PartialEq, Eq)]
pub enum GlCommand {
    /// Make the vertex array current; 0 for none
    BindVertexArray { vao: u32 },
    /// Bind the buffer to the target; 0 to unbind
    BindBuffer { target: BufferTarget, buffer: u32 },
    /// Fill the buffer bound to the target, for static drawing, with
    /// `byte_length` bytes of the source data from `source_offset` on
    BufferData { target: BufferTarget, source_offset: u64, byte_length: u64 },
    /// Delete the buffer
    DeleteBuffer { buffer: u32 },
    /// Enable the attribute location in the current vertex array
    EnableVertexAttribArray { index: u32 },
    /// Describe the attribute at the location, from the buffer bound to the
    /// array target; never normalized
    VertexAttribPointer { index: u32, size: u32, ele_type: u32, stride: u32, byte_offset: u32 },
    /// Set a 4-by-4 matrix uniform, not transposed
    UniformMatrix4 { location: i32, source: MatrixSource },
    /// Draw indexed primitives from the current vertex array
    DrawElements { topology: u32, count: u32, index_offset: usize },
    /// Attach the shader to the program
    AttachShader { program: u32, shader: u32 },
    /// Link the program
    LinkProgram { program: u32 },
    /// Detach the shader from the program
    DetachShader { program: u32, shader: u32 },
    /// Make the program current
    UseProgram { program: u32 },
    /// Delete the program
    DeleteProgram { program: u32 },
    /// Delete the shader
    DeleteShader { shader: u32 },
}

} // verus!

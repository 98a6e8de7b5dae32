//! Planning of OpenGL driver calls for drawing 3D models.
//!
//! A model's buffers become [`GlBuffer`]s, counted handles of driver buffers
//! that live in a [`RenderContext`]. A [`BufferView`] is a [`VertexBuffer`],
//! a window into a shared buffer, or an [`IndexBuffer`], which has a buffer
//! of its own. [`Vertices`] gathers the views of one mesh. A
//! [`ShaderInstantiable`] holds one vertex array per mesh for one shader
//! program and walks the object's render recipe to draw it.
//!
//! Nothing here talks to the driver. Every operation appends the calls it
//! decides on to the context, as [`GlCommand`]s, and takes what the driver
//! answered as plain arguments.

pub mod buffer;
pub mod command;
pub mod gl_buffer;
mod gl_const;
pub mod material;
pub mod model;
pub mod program;
pub mod renderable;
pub mod shader;
pub mod shader_instantiable;
pub mod texture;
pub mod traits;
pub mod vertices;

pub use buffer::{BufferView, IndexBuffer, VertexBuffer};
pub use command::{BufferTarget, GlCommand, MatrixSource};
pub use gl_buffer::{BufferError, GlBuffer};
pub use material::Material;
pub use model::{
    BufferElementType, Primitive, PrimitiveType, RenderRecipe, VertexAttr, ViewDescriptor,
};
pub use program::Program as GlProgram;
pub use program::{StageOutcome, UniformId};
pub use renderable::{BufferRecord, RenderContext, Renderable};
pub use shader::GlShader;
pub use shader_instantiable::{Instantiable, ShaderInstantiable, Vao};
pub use texture::Texture;
pub use traits::ShaderClass;
pub use vertices::Vertices;

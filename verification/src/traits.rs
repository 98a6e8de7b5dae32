//! What a shader has to offer so that models can be drawn with it.

use vstd::prelude::*;

use crate::model::VertexAttr;
use crate::program::UniformId;

verus! {

/// Some trait for a texture.
pub trait Texture: Sized + core::fmt::Debug {

}

/// What is required of a shader program: where its attributes and uniforms
/// are.
pub trait ShaderClass {
    /// The attribute locations that the program declares, each with the
    /// vertex attribute it takes.
    spec fn attribute_table(&self) -> Seq<(u32, VertexAttr)>;

    /// The location of a uniform, if the program has it.
    spec fn uniform_location(&self, uniform_id: UniformId) -> Option<i32>;

    /// Borrow the pairings of attribute location and vertex attribute.
    fn attributes(&self) -> (r: &[(u32, VertexAttr)])
        ensures
            r@ == self.attribute_table(),
    ;

    /// The location of a uniform; `None` if the program does not have it,
    /// which is no error: a shader may leave out what it does not use.
    fn uniform(&self, uniform_id: UniformId) -> (r: Option<i32>)
        ensures
            r == self.uniform_location(uniform_id),
    ;
}

} // verus!

//! Textures of a model, as far as a shader sees them.

use vstd::prelude::*;

verus! {

/// A null texture for now: it carries nothing but a number.
#[derive(Debug)]
pub struct Texture(pub u32);

} // verus!

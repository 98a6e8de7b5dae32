//! Materials of a model, as far as a shader sees them.

use vstd::prelude::*;

verus! {

/// A null material for now: it carries nothing but a number.
#[derive(Debug)]
pub struct Material(pub u32);

impl Default for Material {
    /// The material with the number 0.
    fn default() -> (r: Self)
        ensures
            r.0 == 0,
    {
        Material(0)
    }
}

} // verus!

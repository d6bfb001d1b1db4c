use vstd::prelude::*;

verus! {

/// The broad kind of surface an object is made of.
#[derive(Clone, Copy, Debug, PartialEq, Eq, Structural)]
pub enum Material {
    Diffuse,
    Metal,
    Glass,
}

impl Default for Material {
    fn default() -> (r: Self)
        ensures
            r == Material::Diffuse,
    {
        Material::Diffuse
    }
}

} // verus!

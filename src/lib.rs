//! The exact side of a path tracer: the scene model in fixed-point
//! coordinates, the light index, the random choices of parts, lights, lobes
//! and path length, pixel placement and the PPM image format.
use vstd::prelude::*;

pub mod color;
pub mod figure;
pub mod image;
pub mod material;
pub mod path;
pub mod random;
pub mod reflection;
pub mod scene;
pub mod scenes;
pub mod vec;

verus! {

} // verus!

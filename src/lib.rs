use vstd::prelude::*;

pub mod integrator;
pub mod nums;
pub mod ppm;
pub mod render;

verus! {

} // verus!

use vstd::prelude::*;

pub mod bounds;
pub mod dice;
pub mod material;
pub mod overlay;
pub mod vertex;

verus! {

} // verus!

use vstd::prelude::*;

pub mod bindings;
pub mod movement;
pub mod schedule;
pub mod surface;

verus! {

} // verus!

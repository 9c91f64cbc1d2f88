use vstd::prelude::*;

pub mod cli;
pub mod notebook;
pub mod render;
pub mod laws;

verus! {

} // verus!

use vstd::prelude::*;

pub mod config;
pub mod process;
pub mod laws;

verus! {

} // verus!

use vstd::prelude::*;

pub mod cli;
pub mod config;
pub mod input;
pub mod numbering;

verus! {

} // verus!

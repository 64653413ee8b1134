use vstd::prelude::*;

pub mod collection;
pub mod laws;
pub mod store;
pub mod task;

verus! {

} // verus!

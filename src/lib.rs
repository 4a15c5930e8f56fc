use vstd::prelude::*;

pub mod buffered;
pub mod counter;
pub mod search;
pub mod stream;
pub mod task;

verus! {

} // verus!

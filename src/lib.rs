use vstd::prelude::*;

pub mod exec;
pub mod machine;

verus! {

} // verus!

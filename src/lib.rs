use vstd::prelude::*;

pub mod status;
pub mod timing;
pub mod wave;

verus! {

} // verus!

use vstd::prelude::*;

pub mod chunk;
pub mod copier;
pub mod error;
pub mod probe;
pub mod request;
pub mod stubs;
pub mod transfer;

verus! {

} // verus!

//! Nothing to set up on this host.
use vstd::prelude::*;

verus! {

pub fn init() {
}

} // verus!

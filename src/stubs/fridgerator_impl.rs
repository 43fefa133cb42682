//! Library recognition on a host where no game library is ever loaded.
use vstd::prelude::*;

verus! {

/// Platform-specific settings; this host has none.
#[derive(Clone, Copy, Debug, Default)]
pub struct Config {}

pub fn is_il2cpp_lib(_name: &str) -> (r: bool)
    ensures
        !r,
{
    false
}

pub fn is_criware_lib(_name: &str) -> (r: bool)
    ensures
        !r,
{
    false
}

} // verus!

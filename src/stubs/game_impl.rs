//! Game identity as seen on a host with no game installed.
use vstd::prelude::*;

verus! {

/// The regional build of the game.
#[derive(Clone, Copy, Debug, PartialEq, Eq, Structural)]
pub enum Region {
    Japan,
    Taiwan,
}

/// Which game build is running and where its data lives.
#[derive(Clone, Debug)]
pub struct Game {
    pub package_name: String,
    pub region: Region,
    pub data_dir: String,
}

/// No package to inspect: an empty identity in the default region.
pub fn init() -> (r: Game)
    ensures
        r.package_name@.len() == 0,
        r.region == Region::Japan,
        r.data_dir@.len() == 0,
{
    Game { package_name: String::new(), region: Region::Japan, data_dir: String::new() }
}

pub fn get_package_name() -> (r: String)
    ensures
        r@.len() == 0,
{
    String::new()
}

pub fn get_region(_package_name: &str) -> (r: Region)
    ensures
        r == Region::Japan,
{
    Region::Japan
}

pub fn get_data_dir(_package_name: &str) -> (r: String)
    ensures
        r@.len() == 0,
{
    String::new()
}

} // verus!

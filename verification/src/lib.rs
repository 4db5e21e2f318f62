//! Zone catalog, request decisions and context dumping for an authoritative DNS server.

pub mod authority;
pub mod catalog;
pub mod derive;
pub mod dump;
pub mod handler;
pub mod message;
pub mod name;

use vstd::prelude::*;

verus! {

/// Returns the current version of this library.
pub fn version() -> (r: &'static str)
    ensures
        r@ == "0.1.0"@,
{
    "0.1.0"
}

} // verus!

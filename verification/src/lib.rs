//! A process dispatch core: a registry of named computation units and a
//! hashed, timestamped JSON response envelope built from their outcomes.

pub mod clock;
pub mod envelope;
pub mod hashing;
pub mod json;
pub mod laws;
pub mod numfmt;
pub mod outcome;
pub mod registry;
pub mod server;

use vstd::prelude::*;

verus! {

/// Relies on the standard library's `String` equality, which vstd specifies
/// as equality of the character sequences.
pub fn string_eq(a: &String, b: &String) -> (r: bool)
    ensures
        r == (a@ == b@),
{
    *a == *b
}

} // verus!

//! Fetches the theatre-areas feed of a cinema chain, decodes it into typed
//! records, and turns every failure along the way into one JSON:API-style
//! error object.
use vstd::prelude::*;

pub mod fetch;
pub mod finnkino;
pub mod jsonapi;
pub mod pipeline;
pub mod xml;

verus! {

/// Body of the root route.
pub fn index() -> (r: &'static str)
    ensures
        r@ == "Hello, world!"@,
{
    "Hello, world!"
}

} // verus!

//! The GraphQL query root.
use vstd::prelude::*;

verus! {

/// The root of the GraphQL queries.
pub struct Query;

impl Query {
    /// The greeting field, which answers `world`.
    pub fn hello(&self) -> (r: &'static str)
        ensures
            r@ == "world"@,
    {
        "world"
    }
}

} // verus!

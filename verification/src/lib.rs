//! A clone primitive over a non-fungible-token ledger: a clone token shares
//! the metadata record of a previously minted origin token instead of
//! storing a duplicate, and every read path resolves that indirection.

use vstd::prelude::*;

pub mod token;
pub mod ledger;
pub mod registry;
pub mod contract;
pub mod enumeration;
pub mod laws;

verus! {

/// A clone token id resolves to its registered origin; an id that is not
/// registered as a clone is its own origin.
pub open spec fn resolve_origin_spec(registry: Map<Seq<char>, Seq<char>>, id: Seq<char>) -> Seq<char> {
    if registry.contains_key(id) {
        registry[id]
    } else {
        id
    }
}

} // verus!

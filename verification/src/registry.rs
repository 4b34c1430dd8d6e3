//! The trusted boundary to the two storage-backed maps this library owns:
//! the clone registry (clone id to origin id, ordered) and the clone
//! counter (origin id to usage count).

use vstd::prelude::*;
use near_sdk::collections::{LookupMap, TreeMap};
use crate::token::{empty_counter, empty_registry};

verus! {

#[verifier::external_type_specification]
#[verifier::external_body]
#[verifier::reject_recursive_types(K)]
#[verifier::reject_recursive_types(V)]
pub struct ExTreeMap<K, V>(TreeMap<K, V>);

#[verifier::external_type_specification]
#[verifier::external_body]
#[verifier::reject_recursive_types(K)]
#[verifier::reject_recursive_types(V)]
pub struct ExLookupMap<K, V>(LookupMap<K, V>);

/// The clone-to-origin pairs the registry holds.
pub uninterp spec fn registry_view(m: TreeMap<String, String>) -> Map<Seq<char>, Seq<char>>;

/// The per-origin counts the counter holds.
pub uninterp spec fn counter_view(m: LookupMap<String, u128>) -> Map<Seq<char>, u128>;

/// Relies on `TreeMap::new`: a registry over an empty, caller-reserved
/// storage namespace holds nothing. Keeping the namespace from colliding
/// with one already in use is the caller's configuration duty.
#[verifier::external_body]
pub(crate) fn registry_new(prefix: Vec<u8>) -> (m: TreeMap<String, String>)
    ensures
        registry_view(m) == empty_registry(),
{
    TreeMap::new(prefix)
}

/// Relies on `TreeMap::get`: the origin registered for a clone id, or
/// nothing for an id never registered.
#[verifier::external_body]
pub(crate) fn registry_get(m: &TreeMap<String, String>, key: &String) -> (r: Option<String>)
    ensures
        match r {
            Some(v) => registry_view(*m).contains_key(key@) && v@ == registry_view(*m)[key@],
            None => !registry_view(*m).contains_key(key@),
        },
{
    m.get(key)
}

/// Relies on `TreeMap::insert`: afterwards the registry maps this clone id
/// to this origin id and is otherwise unchanged.
#[verifier::external_body]
pub(crate) fn registry_insert(m: &mut TreeMap<String, String>, key: &String, value: &String)
    ensures
        registry_view(*final(m)) == registry_view(*old(m)).insert(key@, value@),
{
    m.insert(key, value);
}

/// Relies on `LookupMap::new`: a counter over an empty, caller-reserved
/// storage namespace holds nothing. Keeping the namespace from colliding
/// with one already in use is the caller's configuration duty.
#[verifier::external_body]
pub(crate) fn counter_new(prefix: Vec<u8>) -> (m: LookupMap<String, u128>)
    ensures
        counter_view(m) == empty_counter(),
{
    LookupMap::new(prefix)
}

/// Relies on `LookupMap::get`: the stored count for an origin id, or
/// nothing for one never counted.
#[verifier::external_body]
pub(crate) fn counter_get(m: &LookupMap<String, u128>, key: &String) -> (r: Option<u128>)
    ensures
        match r {
            Some(v) => counter_view(*m).contains_key(key@) && v == counter_view(*m)[key@],
            None => !counter_view(*m).contains_key(key@),
        },
{
    m.get(key)
}

/// Relies on `LookupMap::insert`: afterwards the counter stores this count
/// for this origin id and is otherwise unchanged.
#[verifier::external_body]
pub(crate) fn counter_insert(m: &mut LookupMap<String, u128>, key: &String, value: u128)
    ensures
        counter_view(*final(m)) == counter_view(*old(m)).insert(key@, value),
{
    m.insert(key, &value);
}

} // verus!

//! The name index of the registry: a `dashmap::DashMap` from plugin names to
//! slot numbers.
//!
//! Every contract in this file is believed, not proved: it states what the
//! source of `dashmap` shows of the method that the item calls. The map is
//! taken by exclusive reference wherever it is changed, so that no other
//! holder can change it in between.

use vstd::prelude::*;

verus! {

/// The concurrent hash map of `dashmap`. Of what it holds the library
/// speaks through [`index_entries`].
#[verifier::external_type_specification]
#[verifier::external_body]
#[verifier::reject_recursive_types(K)]
#[verifier::reject_recursive_types(V)]
#[verifier::reject_recursive_types(S)]
pub struct ExDashMap<K, V, S>(dashmap::DashMap<K, V, S>);

/// The entries of a name index: the slot number of each name.
pub uninterp spec fn index_entries(index: dashmap::DashMap<String, usize>) -> Map<Seq<char>, usize>;

/// The map without entries.
pub open spec fn no_entries() -> Map<Seq<char>, usize> {
    Map::empty()
}

/// The slot number under `name`, if the map has one.
pub open spec fn entry_of(entries: Map<Seq<char>, usize>, name: Seq<char>) -> Option<usize> {
    if entries.contains_key(name) {
        Some(entries[name])
    } else {
        None
    }
}

/// `DashMap::new`: a map without entries.
#[verifier::external_body]
pub(crate) fn index_new() -> (index: dashmap::DashMap<String, usize>)
    ensures
        index_entries(index) == no_entries(),
{
    dashmap::DashMap::new()
}

/// `DashMap::get`: the value under the key, copied out of the guard.
#[verifier::external_body]
pub(crate) fn index_get(index: &dashmap::DashMap<String, usize>, name: &str) -> (slot: Option<
    usize,
>)
    ensures
        slot == entry_of(index_entries(*index), name@),
{
    index.get(name).map(|entry| *entry.value())
}

/// `DashMap::contains_key`: whether the map has a value under the key.
#[verifier::external_body]
pub(crate) fn index_contains(index: &dashmap::DashMap<String, usize>, name: &str) -> (present: bool)
    ensures
        present == index_entries(*index).contains_key(name@),
{
    index.contains_key(name)
}

/// `DashMap::insert`: puts the value under the key and returns the value
/// that was there before, if any.
#[verifier::external_body]
pub(crate) fn index_insert(
    index: &mut dashmap::DashMap<String, usize>,
    name: String,
    slot: usize,
) -> (previous: Option<usize>)
    ensures
        index_entries(*final(index)) == index_entries(*old(index)).insert(name@, slot),
        previous == entry_of(index_entries(*old(index)), name@),
{
    index.insert(name, slot)
}

/// `DashMap::remove`: takes the entry under the key out of the map and
/// returns its value, if there was one.
#[verifier::external_body]
pub(crate) fn index_remove(index: &mut dashmap::DashMap<String, usize>, name: &str) -> (removed:
    Option<usize>)
    ensures
        index_entries(*final(index)) == index_entries(*old(index)).remove(name@),
        removed == entry_of(index_entries(*old(index)), name@),
{
    index.remove(name).map(|entry| entry.1)
}

/// `DashMap::clear`: removes every entry.
#[verifier::external_body]
pub(crate) fn index_clear(index: &mut dashmap::DashMap<String, usize>)
    ensures
        index_entries(*final(index)) == no_entries(),
{
    index.clear()
}

} // verus!

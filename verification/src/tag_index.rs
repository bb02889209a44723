//! An insertion-ordered index from 4-byte record tags to positions in a
//! record list, backed by `indexmap::IndexMap`.
//!
//! The map's contents are modelled as the sequence of its entries in
//! insertion order, named by [`tag_index_entries`]; each wrapper states what
//! the corresponding `IndexMap` method does to that sequence.

use vstd::prelude::*;

verus! {

#[verifier::external_type_specification]
#[verifier::external_body]
#[verifier::reject_recursive_types(K)]
#[verifier::reject_recursive_types(V)]
#[verifier::reject_recursive_types(S)]
pub struct ExIndexMap<K, V, S>(indexmap::IndexMap<K, V, S>);

/// The entries of a tag index, in insertion order.
pub uninterp spec fn tag_index_entries(
    m: indexmap::IndexMap<u32, usize, std::hash::RandomState>,
) -> Seq<(u32, usize)>;

/// Whether some entry of `es` carries the key `key`.
pub open spec fn entries_have_key(es: Seq<(u32, usize)>, key: u32) -> bool {
    exists|i: int| 0 <= i < es.len() && es[i].0 == key
}

/// Relies on `indexmap::IndexMap::new`: the new map is empty.
#[verifier::external_body]
pub(crate) fn tag_index_new() -> (m: indexmap::IndexMap<u32, usize, std::hash::RandomState>)
    ensures
        tag_index_entries(m) == Seq::<(u32, usize)>::empty(),
{
    indexmap::IndexMap::new()
}

/// Relies on `indexmap::IndexMap::contains_key`: true exactly when an entry
/// with an equivalent key exists in the map.
#[verifier::external_body]
pub(crate) fn tag_index_contains(
    m: &indexmap::IndexMap<u32, usize, std::hash::RandomState>,
    key: u32,
) -> (r: bool)
    ensures
        r == entries_have_key(tag_index_entries(*m), key),
{
    m.contains_key(&key)
}

/// Relies on `indexmap::IndexMap::insert`: when no equivalent key exists, the
/// new pair is inserted last in order.
#[verifier::external_body]
pub(crate) fn tag_index_insert(
    m: &mut indexmap::IndexMap<u32, usize, std::hash::RandomState>,
    key: u32,
    value: usize,
)
    requires
        !entries_have_key(tag_index_entries(*old(m)), key),
    ensures
        tag_index_entries(*final(m)) == tag_index_entries(*old(m)).push((key, value)),
{
    m.insert(key, value);
}

/// Relies on `indexmap::IndexMap::get`: returns the stored value for the key
/// if an entry with that key is present, else `None`.
#[verifier::external_body]
pub(crate) fn tag_index_get(
    m: &indexmap::IndexMap<u32, usize, std::hash::RandomState>,
    key: u32,
) -> (r: Option<usize>)
    ensures
        match r {
            Some(v) => exists|i: int|
                0 <= i < tag_index_entries(*m).len() && tag_index_entries(*m)[i] == (key, v),
            None => !entries_have_key(tag_index_entries(*m), key),
        },
{
    m.get(&key).copied()
}

} // verus!

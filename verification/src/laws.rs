//! Laws relating the mapping operations, stated over the views that the
//! operation contracts use.

use vstd::prelude::*;

verus! {

/// Looking any key up in the empty map finds nothing; together with the
/// contracts of `BinTree::new` and `BinTree::get`, a lookup on a freshly
/// created tree returns `None` for every key.
pub proof fn lemma_empty_lookup(key: i32)
    ensures
        crate::lookup(Map::<i32, i32>::empty(), key) == None::<i32>,
{
}

/// A lookup finds what was just stored: after adding a binding from `key`
/// to `value`, looking `key` up yields `value`. Together with the contracts
/// of `BinTree::insert` and `BinTree::get`, a `get(key)` after an
/// `insert(key, value)` returns `Some(value)`; and since `get_mut` turns the
/// tree's map into `old map.insert(key, written value)`, a `get(key)` after
/// a write through `get_mut(key)` returns the written value.
pub proof fn lemma_insert_then_lookup(m: Map<i32, i32>, key: i32, value: i32)
    ensures
        crate::lookup(m.insert(key, value), key) == Some(value),
{
}

/// Adding a binding for one key leaves lookups of every other key as they
/// were: an `insert(other, value)` does not disturb `get(key)` when
/// `other != key`.
pub proof fn lemma_insert_preserves_other_lookups(
    m: Map<i32, i32>,
    key: i32,
    other: i32,
    value: i32,
)
    requires
        other != key,
    ensures
        crate::lookup(m.insert(other, value), key) == crate::lookup(m, key),
{
}

/// The last write wins: storing `first` and then `second` under the same
/// key leaves `second` as the value that a lookup of that key finds.
pub proof fn lemma_insert_overwrites(m: Map<i32, i32>, key: i32, first: i32, second: i32)
    ensures
        crate::lookup(m.insert(key, first).insert(key, second), key) == Some(second),
{
}

} // verus!

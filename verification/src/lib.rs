//! An unbalanced binary search tree mapping `i32` keys to `i32` values.
//!
//! [`BinTree`] owns an optional root [`Node`]; every operation delegates to
//! the root and recurses through the children by key comparison. The tree is
//! specified against a mathematical map: each structure has a view of type
//! `Map<i32, i32>`, and the contracts of `insert`, `get`, `get_ref` and
//! `get_mut` are stated over that view.

pub mod node;
pub mod tree;
pub mod laws;

pub use node::Node;
pub use tree::BinTree;

use vstd::prelude::*;

verus! {

/// The result of looking `key` up in the map `m`: the stored value when the
/// key is present, and `None` otherwise.
pub open spec fn lookup(m: Map<i32, i32>, key: i32) -> Option<i32> {
    if m.dom().contains(key) {
        Some(m[key])
    } else {
        None
    }
}

/// The value a borrowed lookup result points at, as a copy.
pub open spec fn copied(r: Option<&i32>) -> Option<i32> {
    match r {
        Some(v) => Some(*v),
        None => None,
    }
}

} // verus!

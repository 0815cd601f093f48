//! The owning container that presents the mapping API.

use crate::node::Node;
use vstd::prelude::*;

verus! {

/// A search tree over an optional root. Created empty; grows by `insert`;
/// its view is the map of all bindings it holds.
pub struct BinTree {
    root: Option<Node>,
}

impl BinTree {
    /// The search-tree ordering holds throughout the tree.
    pub closed spec fn well_formed(self) -> bool {
        match self.root {
            Some(n) => n.well_formed(),
            None => true,
        }
    }

    /// An empty tree: no root, no bindings.
    pub fn new() -> (t: BinTree)
        ensures
            t.well_formed(),
            t@ == Map::<i32, i32>::empty(),
    {
        BinTree { root: None }
    }

    /// A copy of the value stored under `key`, when present.
    pub fn get(&self, key: i32) -> (r: Option<i32>)
        requires
            self.well_formed(),
        ensures
            r == crate::lookup(self@, key),
    {
        match &self.root {
            None => None,
            Some(n) => n.get(key),
        }
    }
    /// A borrow of the value stored under `key`, when present; its copy is
    /// exactly what `get` returns for the same key.
    pub fn get_ref(&self, key: i32) -> (r: Option<&i32>)
        requires
            self.well_formed(),
        ensures
            crate::copied(r) == crate::lookup(self@, key),
    {
        match &self.root {
            None => None,
            Some(n) => n.get_ref(key),
        }
    }

    /// An exclusive borrow of the value stored under `key`, when present.
    /// Whatever the caller writes through the borrow becomes the value
    /// stored under `key`; every other binding is untouched.
    pub fn get_mut(&mut self, key: i32) -> (r: Option<&mut i32>)
        requires
            old(self).well_formed(),
        ensures
            final(self).well_formed(),
            r.is_some() == old(self)@.dom().contains(key),
            r.is_some() ==> *r.unwrap() == old(self)@[key]
                && final(self)@ == old(self)@.insert(key, *final(r.unwrap())),
            r.is_none() ==> *final(self) == *old(self),
    {
        match &mut self.root {
            None => None,
            Some(n) => n.get_mut(key),
        }
    }

    /// Store `value` under `key`: overwrite when the key is already present,
    /// otherwise add a binding. The first insert grows the root.
    pub fn insert(&mut self, key: i32, value: i32)
        requires
            old(self).well_formed(),
        ensures
            final(self).well_formed(),
            final(self)@ == old(self)@.insert(key, value),
    {
        match self.root.take() {
            None => {
                self.root = Some(Node::new(key, value));
            }
            Some(mut n) => {
                n.insert(key, value);
                self.root = Some(n);
            }
        }
    }
}

impl View for BinTree {
    type V = Map<i32, i32>;

    closed spec fn view(&self) -> Map<i32, i32> {
        match self.root {
            None => Map::empty(),
            Some(n) => n.as_map(),
        }
    }
}

} // verus!

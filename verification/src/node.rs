//! A single vertex of the search tree.

use vstd::prelude::*;

verus! {

/// One vertex of the tree: a key, a value, and ownership of at most two
/// children. Every key in the left subtree is strictly smaller than `key`,
/// every key in the right subtree strictly greater; `well_formed` states
/// this ordering and all operations preserve it.
pub struct Node {
    key: i32,
    value: i32,
    left: Option<Box<Node>>,
    right: Option<Box<Node>>,
}

impl Node {
    /// The map held by an optional child: empty when the child is absent.
    pub closed spec fn child_map(child: Option<Box<Node>>) -> Map<i32, i32>
        decreases child,
    {
        match child {
            None => Map::empty(),
            Some(n) => n.as_map(),
        }
    }

    /// The key/value pairs held by the subtree rooted at this node.
    pub closed spec fn as_map(self) -> Map<i32, i32>
        decreases self,
    {
        Node::child_map(self.left)
            .union_prefer_right(Node::child_map(self.right))
            .insert(self.key, self.value)
    }

    /// The search-tree ordering: left keys below `key`, right keys above,
    /// recursively at every vertex.
    pub closed spec fn well_formed(self) -> bool
        decreases self,
    {
        &&& (forall|k: i32| Node::child_map(self.left).dom().contains(k) ==> k < self.key)
        &&& (forall|k: i32| Node::child_map(self.right).dom().contains(k) ==> k > self.key)
        &&& (match self.left {
            Some(n) => n.well_formed(),
            None => true,
        })
        &&& (match self.right {
            Some(n) => n.well_formed(),
            None => true,
        })
    }

    /// A fresh leaf holding one binding.
    pub fn new(key: i32, value: i32) -> (n: Node)
        ensures
            n.well_formed(),
            n@ == Map::<i32, i32>::empty().insert(key, value),
    {
        let n = Node { key, value, left: None, right: None };
        proof {
            assert(n.as_map() =~= Map::<i32, i32>::empty().insert(key, value));
        }
        n
    }

    /// A copy of the value stored under `key` in this subtree, when present.
    pub fn get(&self, key: i32) -> (r: Option<i32>)
        requires
            self.well_formed(),
        ensures
            r == crate::lookup(self@, key),
        decreases *self,
    {
        if key == self.key {
            Some(self.value)
        } else if key < self.key {
            proof {
                assert(!Node::child_map(self.right).dom().contains(key));
            }
            match &self.left {
                None => None,
                Some(n) => n.get(key),
            }
        } else {
            proof {
                assert(!Node::child_map(self.left).dom().contains(key));
            }
            match &self.right {
                None => None,
                Some(n) => n.get(key),
            }
        }
    }

    /// A borrow of the value stored under `key` in this subtree, when
    /// present. The copy of what the borrow points at is exactly what `get`
    /// returns for the same key.
    pub fn get_ref(&self, key: i32) -> (r: Option<&i32>)
        requires
            self.well_formed(),
        ensures
            crate::copied(r) == crate::lookup(self@, key),
        decreases *self,
    {
        if key == self.key {
            Some(&self.value)
        } else if key < self.key {
            proof {
                assert(!Node::child_map(self.right).dom().contains(key));
            }
            match &self.left {
                None => None,
                Some(n) => n.get_ref(key),
            }
        } else {
            proof {
                assert(!Node::child_map(self.left).dom().contains(key));
            }
            match &self.right {
                None => None,
                Some(n) => n.get_ref(key),
            }
        }
    }

    /// An exclusive borrow of the value stored under `key` in this subtree,
    /// when present. Whatever the caller writes through the borrow becomes
    /// the value stored under `key`; the rest of the tree is untouched.
    pub fn get_mut(&mut self, key: i32) -> (r: Option<&mut i32>)
        requires
            old(self).well_formed(),
        ensures
            final(self).well_formed(),
            r.is_some() == old(self)@.dom().contains(key),
            r.is_some() ==> *r.unwrap() == old(self)@[key]
                && final(self)@ == old(self)@.insert(key, *final(r.unwrap())),
            r.is_none() ==> *final(self) == *old(self),
        decreases *old(self),
    {
        if key == self.key {
            proof {
                assert(!Node::child_map(self.left).dom().contains(key));
                assert(!Node::child_map(self.right).dom().contains(key));
            }
            Some(&mut self.value)
        } else if key < self.key {
            proof {
                assert(!Node::child_map(self.right).dom().contains(key));
            }
            Node::get_mut_in(&mut self.left, key)
        } else {
            proof {
                assert(!Node::child_map(self.left).dom().contains(key));
            }
            Node::get_mut_in(&mut self.right, key)
        }
    }

    /// An exclusive borrow of the value stored under `key` below this
    /// optional child, when present.
    fn get_mut_in(child: &mut Option<Box<Node>>, key: i32) -> (r: Option<&mut i32>)
        requires
            old(child).is_some() ==> old(child).unwrap().well_formed(),
        ensures
            final(child).is_some() ==> final(child).unwrap().well_formed(),
            r.is_some() == Node::child_map(*old(child)).dom().contains(key),
            r.is_some() ==> *r.unwrap() == Node::child_map(*old(child))[key]
                && Node::child_map(*final(child)) =~= Node::child_map(*old(child)).insert(
                key,
                *final(r.unwrap()),
            ),
            r.is_none() ==> *final(child) == *old(child),
        decreases *old(child),
    {
        match child {
            None => None,
            Some(n) => (&mut **n).get_mut(key),
        }
    }

    /// Place `value` under `key` below this optional child, growing a fresh
    /// leaf when the slot is empty.
    fn insert_into(child: &mut Option<Box<Node>>, key: i32, value: i32)
        requires
            old(child).is_some() ==> old(child).unwrap().well_formed(),
        ensures
            final(child).is_some(),
            final(child).unwrap().well_formed(),
            Node::child_map(*final(child)) =~= Node::child_map(*old(child)).insert(key, value),
        decreases *old(child),
    {
        match child.take() {
            None => {
                *child = Some(Box::new(Node::new(key, value)));
            }
            Some(mut n) => {
                (&mut *n).insert(key, value);
                *child = Some(n);
            }
        }
    }

    /// Store `value` under `key` in this subtree: overwrite the value in
    /// place when the key is already present, otherwise grow a fresh leaf on
    /// the side its ordering demands.
    pub fn insert(&mut self, key: i32, value: i32)
        requires
            old(self).well_formed(),
        ensures
            final(self).well_formed(),
            final(self)@ == old(self)@.insert(key, value),
        decreases *old(self),
    {
        if key == self.key {
            self.value = value;
            proof {
                assert(!Node::child_map(self.left).dom().contains(key));
                assert(!Node::child_map(self.right).dom().contains(key));
            }
        } else if key < self.key {
            Node::insert_into(&mut self.left, key, value);
            proof {
                assert(!Node::child_map(self.right).dom().contains(key));
            }
        } else {
            Node::insert_into(&mut self.right, key, value);
            proof {
                assert(!Node::child_map(self.left).dom().contains(key));
            }
        }
    }
}

impl View for Node {
    type V = Map<i32, i32>;

    open spec fn view(&self) -> Map<i32, i32> {
        self.as_map()
    }
}

} // verus!

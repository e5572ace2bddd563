//! The ordered-tree backend: a balanced ordered map keyed by record id.

use vstd::prelude::*;

use std::collections::BTreeMap;

use crate::storage::Storage;
use crate::user::User;

verus! {

broadcast use vstd::std_specs::btree::group_btree_axioms, vstd::laws_cmp::group_laws_cmp;

/// A backend over a balanced ordered map; the same semantics as the hash
/// index, with O(log n) operations and ascending iteration order available
/// as a natural extension point (the contract does not exercise it).
#[derive(Debug)]
pub struct OrderedTree {
    map: BTreeMap<u64, User>,
}

impl OrderedTree {
    /// A fresh, empty ordered tree.
    pub fn new() -> (s: Self)
        ensures
            s.inv(),
            s.contents() == Map::<u64, User>::empty(),
    {
        OrderedTree { map: BTreeMap::new() }
    }
}

impl Storage for OrderedTree {
    open spec fn inv(&self) -> bool {
        true
    }

    closed spec fn contents(&self) -> Map<u64, User> {
        self.map@
    }

    fn set(&mut self, key: u64, val: User) {
        self.map.insert(key, val);
    }

    fn get(&self, key: &u64) -> (r: Option<&User>) {
        self.map.get(key)
    }

    fn remove(&mut self, key: &u64) -> (r: Option<User>) {
        self.map.remove(key)
    }
}

} // verus!

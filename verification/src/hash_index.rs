//! The hash-index backend: an unordered map keyed by record id.

use vstd::prelude::*;

use std::collections::HashMap;

use crate::storage::Storage;
use crate::user::User;

verus! {

broadcast use vstd::std_specs::hash::group_hash_axioms;

/// A backend over an unordered hash map; all operations are expected
/// O(1) amortized, and no iteration order is promised (none is required
/// by the contract).
#[derive(Debug)]
pub struct HashIndex {
    map: HashMap<u64, User>,
}

impl HashIndex {
    /// A fresh, empty hash index.
    pub fn new() -> (s: Self)
        ensures
            s.inv(),
            s.contents() == Map::<u64, User>::empty(),
    {
        HashIndex { map: HashMap::new() }
    }
}

impl Storage for HashIndex {
    open spec fn inv(&self) -> bool {
        true
    }

    closed spec fn contents(&self) -> Map<u64, User> {
        self.map@
    }

    fn set(&mut self, key: u64, val: User) {
        self.map.insert(key, val);
    }

    fn get(&self, key: &u64) -> (r: Option<&User>) {
        self.map.get(key)
    }

    fn remove(&mut self, key: &u64) -> (r: Option<User>) {
        self.map.remove(key)
    }
}

} // verus!

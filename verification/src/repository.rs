//! The repository: a closed sum over the backend kinds, plus one case that
//! holds a backend behind an owning indirection, chosen at run time.
//!
//! The indirect case stands in for trait-object dispatch, which the verifier
//! does not support: the repository's code for that case goes through the
//! `Storage` contract alone, never through a concrete backend's shape, so a
//! consumer of the repository needs no knowledge of the backend it wraps, at
//! the cost of one extra indirection per call.

use vstd::prelude::*;

use crate::hash_index::HashIndex;
use crate::ordered_tree::OrderedTree;
use crate::sorted_array::SortedArray;
use crate::storage::Storage;
use crate::user::User;

verus! {

/// Any backend satisfying the storage contract, as one value: the
/// capability object the repository's indirect case owns.
#[derive(Debug)]
pub enum AnyBackend {
    HashIndex(HashIndex),
    SortedArray(SortedArray),
    OrderedTree(OrderedTree),
}

impl AnyBackend {
    /// A fresh, empty backend of the chosen kind, wrapped for dynamic use.
    pub fn new_hash_index() -> (b: Self)
        ensures
            b.inv(),
            b.contents() == Map::<u64, User>::empty(),
    {
        AnyBackend::HashIndex(HashIndex::new())
    }

    /// A fresh, empty sorted-array backend, wrapped for dynamic use.
    pub fn new_sorted_array() -> (b: Self)
        ensures
            b.inv(),
            b.contents() == Map::<u64, User>::empty(),
    {
        AnyBackend::SortedArray(SortedArray::new())
    }

    /// A fresh, empty ordered-tree backend, wrapped for dynamic use.
    pub fn new_ordered_tree() -> (b: Self)
        ensures
            b.inv(),
            b.contents() == Map::<u64, User>::empty(),
    {
        AnyBackend::OrderedTree(OrderedTree::new())
    }
}

impl Storage for AnyBackend {
    open spec fn inv(&self) -> bool {
        match self {
            AnyBackend::HashIndex(b) => b.inv(),
            AnyBackend::SortedArray(b) => b.inv(),
            AnyBackend::OrderedTree(b) => b.inv(),
        }
    }

    open spec fn contents(&self) -> Map<u64, User> {
        match self {
            AnyBackend::HashIndex(b) => b.contents(),
            AnyBackend::SortedArray(b) => b.contents(),
            AnyBackend::OrderedTree(b) => b.contents(),
        }
    }

    fn set(&mut self, key: u64, val: User) {
        match self {
            AnyBackend::HashIndex(b) => b.set(key, val),
            AnyBackend::SortedArray(b) => b.set(key, val),
            AnyBackend::OrderedTree(b) => b.set(key, val),
        }
    }

    fn get(&self, key: &u64) -> (r: Option<&User>) {
        match self {
            AnyBackend::HashIndex(b) => b.get(key),
            AnyBackend::SortedArray(b) => b.get(key),
            AnyBackend::OrderedTree(b) => b.get(key),
        }
    }

    fn remove(&mut self, key: &u64) -> (r: Option<User>) {
        match self {
            AnyBackend::HashIndex(b) => b.remove(key),
            AnyBackend::SortedArray(b) => b.remove(key),
            AnyBackend::OrderedTree(b) => b.remove(key),
        }
    }
}

/// The owning wrapper around exactly one backend: one of the three kinds
/// chosen statically at construction, or any storage-capable backend held
/// behind an indirection and reached through the contract at run time.
#[derive(Debug)]
pub enum UserRepository {
    HashIndex(HashIndex),
    SortedArray(SortedArray),
    OrderedTree(OrderedTree),
    Dynamic(Box<AnyBackend>),
}

impl UserRepository {
    /// A repository over a fresh hash index.
    pub fn new_hash_index() -> (r: Self)
        ensures
            r.inv(),
            r.contents() == Map::<u64, User>::empty(),
    {
        UserRepository::HashIndex(HashIndex::new())
    }

    /// A repository over a fresh sorted array.
    pub fn new_sorted_array() -> (r: Self)
        ensures
            r.inv(),
            r.contents() == Map::<u64, User>::empty(),
    {
        UserRepository::SortedArray(SortedArray::new())
    }

    /// A repository over a fresh ordered tree.
    pub fn new_ordered_tree() -> (r: Self)
        ensures
            r.inv(),
            r.contents() == Map::<u64, User>::empty(),
    {
        UserRepository::OrderedTree(OrderedTree::new())
    }

    /// A repository over any storage-capable backend, dynamically
    /// dispatched: ownership of the backend passes to the repository.
    pub fn new_dynamic(backend: AnyBackend) -> (r: Self)
        requires
            backend.inv(),
        ensures
            r.inv(),
            r.contents() == backend.contents(),
    {
        UserRepository::Dynamic(Box::new(backend))
    }

    /// Insert-if-absent: stores the record under its id when no record
    /// holds that id yet, and leaves the repository unchanged otherwise.
    /// The same policy holds for every backend kind.
    pub fn add(&mut self, val: User)
        requires
            old(self).inv(),
        ensures
            final(self).inv(),
            final(self).contents() == if old(self).contents().contains_key(val.id) {
                old(self).contents()
            } else {
                old(self).contents().insert(val.id, val)
            },
    {
        let absent = self.get(&val.id).is_none();
        if absent {
            let key = val.id;
            self.set(key, val);
        }
    }

    /// Update-if-present: replaces the record stored under the given
    /// record's id, and does not insert when the id is missing.  The same
    /// policy holds for every backend kind.
    pub fn update(&mut self, val: User)
        requires
            old(self).inv(),
        ensures
            final(self).inv(),
            final(self).contents() == if old(self).contents().contains_key(val.id) {
                old(self).contents().insert(val.id, val)
            } else {
                old(self).contents()
            },
    {
        let present = self.get(&val.id).is_some();
        if present {
            let key = val.id;
            self.set(key, val);
        }
    }
}

impl Storage for UserRepository {
    open spec fn inv(&self) -> bool {
        match self {
            UserRepository::HashIndex(b) => b.inv(),
            UserRepository::SortedArray(b) => b.inv(),
            UserRepository::OrderedTree(b) => b.inv(),
            UserRepository::Dynamic(b) => b.inv(),
        }
    }

    open spec fn contents(&self) -> Map<u64, User> {
        match self {
            UserRepository::HashIndex(b) => b.contents(),
            UserRepository::SortedArray(b) => b.contents(),
            UserRepository::OrderedTree(b) => b.contents(),
            UserRepository::Dynamic(b) => b.contents(),
        }
    }

    fn set(&mut self, key: u64, val: User) {
        match self {
            UserRepository::HashIndex(b) => b.set(key, val),
            UserRepository::SortedArray(b) => b.set(key, val),
            UserRepository::OrderedTree(b) => b.set(key, val),
            UserRepository::Dynamic(b) => b.set(key, val),
        }
    }

    fn get(&self, key: &u64) -> (r: Option<&User>) {
        match self {
            UserRepository::HashIndex(b) => b.get(key),
            UserRepository::SortedArray(b) => b.get(key),
            UserRepository::OrderedTree(b) => b.get(key),
            UserRepository::Dynamic(b) => b.get(key),
        }
    }

    fn remove(&mut self, key: &u64) -> (r: Option<User>) {
        match self {
            UserRepository::HashIndex(b) => b.remove(key),
            UserRepository::SortedArray(b) => b.remove(key),
            UserRepository::OrderedTree(b) => b.remove(key),
            UserRepository::Dynamic(b) => b.remove(key),
        }
    }
}

/// Wrapping a backend for dynamic dispatch is observably identical to the
/// backend itself: the dynamically-held backend's invariant and contents
/// are the repository's, so every operation of the contract answers and
/// mutates exactly as the backend would; only dispatch cost differs.
pub proof fn lemma_dynamic_transparent(r: UserRepository, b: Box<AnyBackend>)
    requires
        r == UserRepository::Dynamic(b),
    ensures
        r.inv() == b.inv(),
        r.contents() == b.contents(),
{
}

} // verus!

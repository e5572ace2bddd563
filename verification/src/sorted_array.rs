//! The sorted-array backend: a dense sequence kept sorted ascending by
//! record id, with binary search for lookups and shifted inserts.
//!
//! Policy choice: a `set` of a new key performs a *sorted insert* at the
//! position the binary search reports, rather than appending at the tail.
//! The sequence is therefore sorted by id at all times, every mutation
//! re-establishes the ordering before returning, and lookups by binary
//! search answer correctly for every key history.

use vstd::prelude::*;

use crate::storage::Storage;
use crate::user::User;

verus! {

/// The ordering invariant: record ids strictly increase along the sequence.
/// Strictness also gives uniqueness of ids, the central record invariant.
pub open spec fn ids_strictly_sorted(s: Seq<User>) -> bool {
    forall|i: int, j: int| 0 <= i < j < s.len() ==> s[i].id < s[j].id
}

/// The map a sequence of records abstracts to: each record filed under its
/// own id, later occurrences winning (occurrences are unique under the
/// ordering invariant, so the direction never matters in this module).
pub open spec fn seq_contents(s: Seq<User>) -> Map<u64, User>
    decreases s.len(),
{
    if s.len() == 0 {
        Map::empty()
    } else {
        seq_contents(s.drop_last()).insert(s.last().id, s.last())
    }
}

/// A key is in the abstract map exactly when some record of the sequence
/// carries it as its id.
proof fn lemma_seq_contents_dom(s: Seq<User>)
    ensures
        forall|k: u64|
            seq_contents(s).contains_key(k) <==> exists|i: int| 0 <= i < s.len() && s[i].id == k,
    decreases s.len(),
{
    if s.len() > 0 {
        lemma_seq_contents_dom(s.drop_last());
        assert forall|k: u64| seq_contents(s).contains_key(k) implies exists|i: int|
            0 <= i < s.len() && s[i].id == k by {
            if k == s.last().id {
                assert(s[s.len() - 1].id == k);
            } else {
                assert(seq_contents(s.drop_last()).contains_key(k));
                let i = choose|i: int| 0 <= i < s.drop_last().len() && s.drop_last()[i].id == k;
                assert(s.drop_last()[i] == s[i]);
                assert(s[i].id == k);
            }
        }
        assert forall|k: u64| (exists|i: int| 0 <= i < s.len() && s[i].id == k) implies
            seq_contents(s).contains_key(k) by {
            let i = choose|i: int| 0 <= i < s.len() && s[i].id == k;
            if i < s.len() - 1 {
                assert(s.drop_last()[i] == s[i]);
                assert(exists|j: int| 0 <= j < s.drop_last().len() && s.drop_last()[j].id == k);
                assert(seq_contents(s.drop_last()).contains_key(k));
            } else {
                assert(k == s.last().id);
            }
        }
    }
}

/// Ids of distinct positions differ.
pub open spec fn unique_ids(s: Seq<User>) -> bool {
    forall|i: int, j: int| 0 <= i < j < s.len() ==> s[i].id != s[j].id
}

/// Under unique ids, the abstract map holds each record of the sequence
/// under its id.
proof fn lemma_seq_contents_at(s: Seq<User>, i: int)
    requires
        unique_ids(s),
        0 <= i < s.len(),
    ensures
        seq_contents(s).contains_key(s[i].id),
        seq_contents(s)[s[i].id] == s[i],
    decreases s.len(),
{
    if i < s.len() - 1 {
        assert(s.drop_last()[i] == s[i]);
        lemma_seq_contents_at(s.drop_last(), i);
        assert(s[i].id != s.last().id);
    }
}

/// Removing the record at a position removes exactly its key from the
/// abstract map.
proof fn lemma_seq_contents_remove(s: Seq<User>, i: int)
    requires
        unique_ids(s),
        0 <= i < s.len(),
    ensures
        seq_contents(s.remove(i)) == seq_contents(s).remove(s[i].id),
    decreases s.len(),
{
    s.remove_ensures(i);
    lemma_seq_contents_dom(s.drop_last());
    if i == s.len() - 1 {
        assert(s.remove(i) =~= s.drop_last());
        assert(!seq_contents(s.drop_last()).contains_key(s.last().id));
        assert(seq_contents(s.drop_last()).insert(s.last().id, s.last()).remove(s.last().id)
            =~= seq_contents(s.drop_last()));
    } else {
        assert(s.remove(i).drop_last() =~= s.drop_last().remove(i));
        assert(s.remove(i).last() == s.last());
        assert(s.drop_last()[i] == s[i]);
        lemma_seq_contents_remove(s.drop_last(), i);
        assert(s[i].id != s.last().id);
        assert(seq_contents(s.drop_last()).remove(s[i].id).insert(s.last().id, s.last())
            =~= seq_contents(s.drop_last()).insert(s.last().id, s.last()).remove(s[i].id));
        assert(seq_contents(s.remove(i))
            == seq_contents(s.remove(i).drop_last()).insert(s.remove(i).last().id, s.remove(i).last()));
    }
}

/// Inserting a record whose id is fresh inserts exactly its key into the
/// abstract map.
proof fn lemma_seq_contents_insert(s: Seq<User>, i: int, u: User)
    requires
        0 <= i <= s.len(),
        forall|j: int| 0 <= j < s.len() ==> s[j].id != u.id,
    ensures
        seq_contents(s.insert(i, u)) == seq_contents(s).insert(u.id, u),
    decreases s.len(),
{
    s.insert_ensures(i, u);
    if i == s.len() {
        assert(s.insert(i, u).drop_last() =~= s);
        assert(s.insert(i, u).last() == u);
        assert(seq_contents(s.insert(i, u))
            == seq_contents(s.insert(i, u).drop_last()).insert(u.id, u));
    } else {
        assert(s.insert(i, u).drop_last() =~= s.drop_last().insert(i, u));
        assert(s.insert(i, u).last() == s.last());
        assert(forall|j: int| 0 <= j < s.drop_last().len() ==> s.drop_last()[j] == s[j]);
        lemma_seq_contents_insert(s.drop_last(), i, u);
        assert(s[s.len() - 1].id != u.id);
        assert(seq_contents(s.drop_last()).insert(u.id, u).insert(s.last().id, s.last())
            =~= seq_contents(s.drop_last()).insert(s.last().id, s.last()).insert(u.id, u));
        assert(seq_contents(s.insert(i, u))
            == seq_contents(s.insert(i, u).drop_last()).insert(s.insert(i, u).last().id, s.insert(i, u).last()));
    }
}

/// Removing a record keeps the ids strictly sorted.
proof fn lemma_sorted_remove(s: Seq<User>, i: int)
    requires
        ids_strictly_sorted(s),
        0 <= i < s.len(),
    ensures
        ids_strictly_sorted(s.remove(i)),
{
    s.remove_ensures(i);
    assert forall|a: int, b: int| 0 <= a < b < s.remove(i).len() implies s.remove(i)[a].id
        < s.remove(i)[b].id by {
        if a < i && b < i {
        } else if a < i {
            assert(s.remove(i)[b] == s[b + 1]);
        } else {
            assert(s.remove(i)[a] == s[a + 1]);
            assert(s.remove(i)[b] == s[b + 1]);
        }
    }
}

/// Inserting a record between its strict neighbours keeps the ids strictly
/// sorted.
proof fn lemma_sorted_insert(s: Seq<User>, i: int, u: User)
    requires
        ids_strictly_sorted(s),
        0 <= i <= s.len(),
        forall|j: int| 0 <= j < i ==> s[j].id < u.id,
        forall|j: int| i <= j < s.len() ==> s[j].id > u.id,
    ensures
        ids_strictly_sorted(s.insert(i, u)),
{
    s.insert_ensures(i, u);
    assert forall|a: int, b: int| 0 <= a < b < s.insert(i, u).len() implies s.insert(i, u)[a].id
        < s.insert(i, u)[b].id by {
        if a < i {
        } else if a == i {
            assert(s.insert(i, u)[b] == s[b - 1]);
        } else {
            assert(s.insert(i, u)[a] == s[a - 1]);
            assert(s.insert(i, u)[b] == s[b - 1]);
        }
    }
}

/// A backend over a dense sorted sequence: O(log n) search, shifted O(n)
/// inserts and removals.
#[derive(Debug)]
pub struct SortedArray {
    users: Vec<User>,
}

impl SortedArray {
    /// A fresh, empty sorted array.
    pub fn new() -> (s: Self)
        ensures
            s.inv(),
            s.contents() == Map::<u64, User>::empty(),
    {
        SortedArray { users: Vec::new() }
    }

    /// The stored sequence, in id order.
    pub closed spec fn records(&self) -> Seq<User> {
        self.users@
    }

    /// Binary search: the first position whose record id is not below
    /// `key`; the length when every id is below it.
    fn lower_bound(&self, key: u64) -> (i: usize)
        requires
            self.inv(),
        ensures
            i <= self.records().len(),
            forall|j: int| 0 <= j < i ==> self.records()[j].id < key,
            forall|j: int| i <= j < self.records().len() ==> self.records()[j].id >= key,
    {
        let mut lo: usize = 0;
        let mut hi: usize = self.users.len();
        while lo < hi
            invariant
                lo <= hi <= self.records().len(),
                self.inv(),
                forall|j: int| 0 <= j < lo ==> self.records()[j].id < key,
                forall|j: int| hi <= j < self.records().len() ==> self.records()[j].id >= key,
            decreases hi - lo,
        {
            let mid = lo + (hi - lo) / 2;
            if self.users[mid].id < key {
                lo = mid + 1;
            } else {
                hi = mid;
            }
        }
        lo
    }
}

impl Storage for SortedArray {
    open spec fn inv(&self) -> bool {
        ids_strictly_sorted(self.records())
    }

    closed spec fn contents(&self) -> Map<u64, User> {
        seq_contents(self.users@)
    }

    fn set(&mut self, key: u64, val: User) {
        let ghost s0 = self.users@;
        let i = self.lower_bound(key);
        if i < self.users.len() && self.users[i].id == key {
            self.users.remove(i);
            let ghost s1 = self.users@;
            proof {
                s0.remove_ensures(i as int);
                lemma_sorted_remove(s0, i as int);
                lemma_seq_contents_remove(s0, i as int);
                assert forall|j: int| 0 <= j < s1.len() implies if j < i {
                    s1[j].id < val.id
                } else {
                    s1[j].id > val.id
                } by {
                    if j >= i {
                        assert(s1[j] == s0[j + 1]);
                    }
                }
            }
            self.users.insert(i, val);
            proof {
                s1.insert_ensures(i as int, val);
                lemma_sorted_insert(s1, i as int, val);
                lemma_seq_contents_insert(s1, i as int, val);
                assert(seq_contents(self.users@) =~= seq_contents(s0).insert(key, val));
            }
        } else {
            proof {
                assert forall|j: int| 0 <= j < s0.len() implies if j < i {
                    s0[j].id < val.id
                } else {
                    s0[j].id > val.id
                } by {
                    if j > i {
                        assert(s0[i as int].id < s0[j].id);
                    }
                }
            }
            self.users.insert(i, val);
            proof {
                s0.insert_ensures(i as int, val);
                lemma_sorted_insert(s0, i as int, val);
                lemma_seq_contents_insert(s0, i as int, val);
            }
        }
    }

    fn get(&self, key: &u64) -> (r: Option<&User>) {
        proof {
            lemma_seq_contents_dom(self.users@);
        }
        let i = self.lower_bound(*key);
        if i < self.users.len() && self.users[i].id == *key {
            proof {
                lemma_seq_contents_at(self.users@, i as int);
            }
            Some(&self.users[i])
        } else {
            None
        }
    }

    fn remove(&mut self, key: &u64) -> (r: Option<User>) {
        proof {
            lemma_seq_contents_dom(self.users@);
        }
        let i = self.lower_bound(*key);
        if i < self.users.len() && self.users[i].id == *key {
            proof {
                lemma_seq_contents_at(self.users@, i as int);
                lemma_seq_contents_remove(self.users@, i as int);
                lemma_sorted_remove(self.users@, i as int);
            }
            Some(self.users.remove(i))
        } else {
            proof {
                assert(self.contents().remove(*key) =~= self.contents());
            }
            None
        }
    }
}

} // verus!

//! The storage contract that every backend satisfies, and an abstract model
//! of operation sequences against it.
//!
//! Each backend abstracts to a finite map from record id to record
//! (`contents`).  The three operations of the contract are specified against
//! that map alone, so any two backends holding equal contents answer every
//! operation identically.

use vstd::prelude::*;

use crate::user::User;

verus! {

/// The operation set every backend must implement.
///
/// A backend files each record under the record's own id: `set` demands
/// `val.id == key`, which rules out the programming error of storing a
/// record under a foreign key (that would silently break the id-ordering
/// invariant of the sorted-array backend).
pub trait Storage: Sized {
    /// The backend's internal invariant; constructors establish it and every
    /// operation preserves it.
    spec fn inv(&self) -> bool;

    /// The abstract value of the backend: a map from record id to record.
    spec fn contents(&self) -> Map<u64, User>;

    /// Insert a new record under `key` if absent, otherwise replace the
    /// stored record entirely.  Always succeeds.
    fn set(&mut self, key: u64, val: User)
        requires
            old(self).inv(),
            val.id == key,
        ensures
            final(self).inv(),
            final(self).contents() == old(self).contents().insert(key, val),
    ;

    /// Return the current record for `key`, or `None` if absent.
    fn get(&self, key: &u64) -> (r: Option<&User>)
        requires
            self.inv(),
        ensures
            match r {
                Some(u) => self.contents().contains_key(*key) && *u == self.contents()[*key],
                None => !self.contents().contains_key(*key),
            },
    ;

    /// Remove and return the record for `key` if present; `None` if absent.
    fn remove(&mut self, key: &u64) -> (r: Option<User>)
        requires
            old(self).inv(),
        ensures
            final(self).inv(),
            final(self).contents() == old(self).contents().remove(*key),
            match r {
                Some(u) => old(self).contents().contains_key(*key) && u == old(
                    self,
                ).contents()[*key],
                None => !old(self).contents().contains_key(*key),
            },
    ;
}

/// One operation of the storage contract, as a value.
///
/// `Put` carries the record for a `set` call and files it under the record's own id.
#[derive(Debug)]
pub enum Op {
    Put(User),
    Get(u64),
    Remove(u64),
}

/// The contents after one operation.
pub open spec fn apply_op(m: Map<u64, User>, op: Op) -> Map<u64, User> {
    match op {
        Op::Put(u) => m.insert(u.id, u),
        Op::Get(_) => m,
        Op::Remove(k) => m.remove(k),
    }
}

/// The answer one operation gives: the record looked up or removed,
/// `None` for a miss and for `Put`.
pub open spec fn op_result(m: Map<u64, User>, op: Op) -> Option<User> {
    match op {
        Op::Put(_) => None,
        Op::Get(k) => if m.contains_key(k) {
            Some(m[k])
        } else {
            None
        },
        Op::Remove(k) => if m.contains_key(k) {
            Some(m[k])
        } else {
            None
        },
    }
}

/// The contents after a sequence of operations.
pub open spec fn apply_ops(m: Map<u64, User>, ops: Seq<Op>) -> Map<u64, User>
    decreases ops.len(),
{
    if ops.len() == 0 {
        m
    } else {
        apply_op(apply_ops(m, ops.drop_last()), ops.last())
    }
}

/// The answers a sequence of operations gives, in order.
pub open spec fn results_of(m: Map<u64, User>, ops: Seq<Op>) -> Seq<Option<User>>
    decreases ops.len(),
{
    if ops.len() == 0 {
        Seq::empty()
    } else {
        results_of(m, ops.drop_last()).push(
            op_result(apply_ops(m, ops.drop_last()), ops.last()),
        )
    }
}

/// Run a sequence of operations against any backend.
///
/// The answers, and the contents left behind, are a function of the
/// backend's initial contents and the operation sequence alone: two
/// backends of different shape but equal contents answer identically.
pub fn run_ops<S: Storage>(s: &mut S, ops: &Vec<Op>) -> (results: Vec<Option<User>>)
    requires
        old(s).inv(),
    ensures
        final(s).inv(),
        final(s).contents() == apply_ops(old(s).contents(), ops@),
        results@ == results_of(old(s).contents(), ops@),
{
    let ghost m0 = s.contents();
    let mut results: Vec<Option<User>> = Vec::new();
    let mut i: usize = 0;
    while i < ops.len()
        invariant
            i <= ops@.len(),
            s.inv(),
            s.contents() == apply_ops(m0, ops@.take(i as int)),
            results@ == results_of(m0, ops@.take(i as int)),
        decreases ops@.len() - i,
    {
        proof {
            assert(ops@.take(i + 1).drop_last() =~= ops@.take(i as int));
            assert(ops@.take(i + 1).last() == ops@[i as int]);
        }
        match &ops[i] {
            Op::Put(u) => {
                let v = u.clone();
                s.set(v.id, v);
                results.push(None);
            },
            Op::Get(k) => {
                let r = match s.get(k) {
                    Some(u) => Some(u.clone()),
                    None => None,
                };
                results.push(r);
            },
            Op::Remove(k) => {
                let r = s.remove(k);
                results.push(r);
            },
        }
        i = i + 1;
    }
    proof {
        assert(ops@.take(ops@.len() as int) =~= ops@);
    }
    results
}

} // verus!

//! Laws the storage contract guarantees, stated over the abstract model
//! every backend's operations are specified against: a map from record id
//! to record, evolving by `apply_op` with answers given by `op_result`.

use vstd::prelude::*;

use crate::storage::{apply_op, apply_ops, op_result, results_of, Op};
use crate::user::User;

verus! {

/// A key is absent immediately after construction (every backend starts
/// with empty contents), and absent again right after it is removed,
/// whether or not it had been present.
pub proof fn lemma_absent_after_new_and_remove(m: Map<u64, User>, k: u64)
    ensures
        !Map::<u64, User>::empty().contains_key(k),
        !apply_op(m, Op::Remove(k)).contains_key(k),
{
}

/// Storing a record and looking its id up returns exactly that record,
/// from any starting contents.
pub proof fn lemma_set_then_get(m: Map<u64, User>, r: User)
    ensures
        op_result(apply_op(m, Op::Put(r)), Op::Get(r.id)) == Some(r),
{
}

/// Removing a present key twice in a row yields the stored record first
/// and nothing the second time.
pub proof fn lemma_remove_twice(m: Map<u64, User>, k: u64)
    requires
        m.contains_key(k),
    ensures
        op_result(m, Op::Remove(k)) == Some(m[k]),
        op_result(apply_op(m, Op::Remove(k)), Op::Remove(k)) == None::<User>,
{
}

/// Cross-backend equivalence: any two backends holding equal contents give
/// identical answers to every operation sequence, and hold equal contents
/// afterwards.  Together with `run_ops`, whose answers are a function of a
/// backend's contents and the operations alone, backends of any shape and
/// dispatch mode are interchangeable.
pub proof fn lemma_cross_backend_equivalence(
    m1: Map<u64, User>,
    m2: Map<u64, User>,
    ops: Seq<Op>,
)
    requires
        m1 == m2,
    ensures
        results_of(m1, ops) == results_of(m2, ops),
        apply_ops(m1, ops) == apply_ops(m2, ops),
{
}

} // verus!

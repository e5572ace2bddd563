//! The fixed benchmark workload: for each id below a bound, add a record,
//! update it with a second value, look it up, and remove it.
//!
//! The driver is purely computational; the harness around the library times
//! it per backend and dispatch mode and reports the elapsed time.

use vstd::prelude::*;

use crate::repository::UserRepository;
use crate::storage::Storage;
use crate::user::User;

verus! {

/// The set of keys the workload touches: every id below `n`.
pub open spec fn touched_keys(n: u64) -> Set<u64> {
    Set::new(|k: u64| k < n)
}

/// Drive the fixed workload against a repository: for each id in `[0, n)`,
/// `add` a record with the first email, `update` it with the second, `get`
/// it, then `remove` it.  Every touched key ends up absent and every other
/// key keeps its record, whatever the backend and dispatch mode.
pub fn run_workload(repo: &mut UserRepository, n: u64, first_email: &str, second_email: &str)
    requires
        old(repo).inv(),
    ensures
        final(repo).inv(),
        final(repo).contents() == old(repo).contents().remove_keys(touched_keys(n)),
{
    let ghost m0 = repo.contents();
    let mut i: u64 = 0;
    while i < n
        invariant
            i <= n,
            repo.inv(),
            repo.contents() == m0.remove_keys(touched_keys(i)),
        decreases n - i,
    {
        repo.add(User { id: i, email: first_email.to_owned(), activated: true });
        repo.update(User { id: i, email: second_email.to_owned(), activated: true });
        let _ = repo.get(&i);
        let _ = repo.remove(&i);
        proof {
            assert(repo.contents() =~= m0.remove_keys(touched_keys((i + 1) as u64)));
        }
        i = i + 1;
    }
    proof {
        assert(repo.contents() =~= m0.remove_keys(touched_keys(n)));
    }
}

} // verus!

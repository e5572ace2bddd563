//! The storage contract, exercised through every backend and both dispatch
//! modes.

use user_storage::hash_index::HashIndex;
use user_storage::ordered_tree::OrderedTree;
use user_storage::repository::{AnyBackend, UserRepository};
use user_storage::sorted_array::SortedArray;
use user_storage::storage::{run_ops, Op, Storage};
use user_storage::user::User;

fn user(id: u64, email: &str, activated: bool) -> User {
    User { id, email: email.to_string(), activated }
}

fn all_repositories() -> Vec<(&'static str, UserRepository)> {
    vec![
        ("hash index", UserRepository::new_hash_index()),
        ("sorted array", UserRepository::new_sorted_array()),
        ("ordered tree", UserRepository::new_ordered_tree()),
        (
            "dynamic hash index",
            UserRepository::new_dynamic(AnyBackend::new_hash_index()),
        ),
        (
            "dynamic sorted array",
            UserRepository::new_dynamic(AnyBackend::new_sorted_array()),
        ),
        (
            "dynamic ordered tree",
            UserRepository::new_dynamic(AnyBackend::new_ordered_tree()),
        ),
    ]
}

#[test]
fn fresh_backend_holds_nothing() {
    for (label, repo) in all_repositories() {
        assert!(repo.get(&0).is_none(), "{label}");
        assert!(repo.get(&42).is_none(), "{label}");
    }
}

#[test]
fn set_then_get_returns_the_record() {
    for (label, mut repo) in all_repositories() {
        let r = user(9, "nine@example.com", true);
        repo.set(r.id, r.clone());
        assert_eq!(repo.get(&9), Some(&r), "{label}");
    }
}

#[test]
fn set_overwrites_entirely() {
    for (label, mut repo) in all_repositories() {
        repo.set(4, user(4, "first@example.com", true));
        let second = user(4, "second@example.com", false);
        repo.set(4, second.clone());
        assert_eq!(repo.get(&4), Some(&second), "{label}");
    }
}

#[test]
fn remove_twice_yields_record_then_nothing() {
    for (label, mut repo) in all_repositories() {
        let r = user(7, "seven@example.com", false);
        repo.set(r.id, r.clone());
        assert_eq!(repo.remove(&7), Some(r), "{label}");
        assert_eq!(repo.remove(&7), None, "{label}");
        assert!(repo.get(&7).is_none(), "{label}");
    }
}

#[test]
fn add_on_existing_id_is_a_no_op() {
    for (label, mut repo) in all_repositories() {
        let original = user(1, "original@example.com", true);
        repo.add(original.clone());
        repo.add(user(1, "x@example.com", false));
        assert_eq!(repo.get(&1), Some(&original), "{label}");
    }
}

#[test]
fn update_on_missing_id_does_not_insert() {
    for (label, mut repo) in all_repositories() {
        repo.update(user(3, "ghost@example.com", true));
        assert!(repo.get(&3).is_none(), "{label}");
    }
}

#[test]
fn add_update_get_remove_scenario() {
    for (label, mut repo) in all_repositories() {
        repo.add(user(1, "one@example.com", true));
        repo.add(user(1, "x", true));
        let replacement = user(1, "y", true);
        repo.update(replacement.clone());
        assert_eq!(repo.get(&1), Some(&replacement), "{label}");
        assert_eq!(repo.remove(&1), Some(replacement), "{label}");
        assert!(repo.get(&1).is_none(), "{label}");
    }
}

#[test]
fn sorted_array_accepts_keys_out_of_order() {
    // Policy under test: a new key goes in at its sorted position, not at
    // the tail, so later lookups of smaller ids succeed.
    let mut repo = UserRepository::new_sorted_array();
    let five = user(5, "five@example.com", true);
    let two = user(2, "two@example.com", true);
    repo.add(five.clone());
    repo.add(two.clone());
    assert_eq!(repo.get(&2), Some(&two));
    assert_eq!(repo.get(&5), Some(&five));
    assert_eq!(repo.remove(&2), Some(two));
    assert_eq!(repo.get(&5), Some(&five));
}

fn mixed_ops() -> Vec<Op> {
    vec![
        Op::Put(user(10, "a@example.com", true)),
        Op::Get(10),
        Op::Put(user(3, "b@example.com", false)),
        Op::Get(3),
        Op::Get(11),
        Op::Put(user(10, "c@example.com", false)),
        Op::Get(10),
        Op::Remove(3),
        Op::Remove(3),
        Op::Put(user(7, "d@example.com", true)),
        Op::Get(7),
        Op::Remove(10),
        Op::Get(10),
    ]
}

#[test]
fn backends_answer_identically() {
    let ops = mixed_ops();
    let mut hash = HashIndex::new();
    let mut array = SortedArray::new();
    let mut tree = OrderedTree::new();
    let from_hash = run_ops(&mut hash, &ops);
    let from_array = run_ops(&mut array, &ops);
    let from_tree = run_ops(&mut tree, &ops);
    assert_eq!(from_hash, from_array);
    assert_eq!(from_hash, from_tree);
}

#[test]
fn workload_leaves_every_touched_key_absent() {
    for (label, mut repo) in all_repositories() {
        let survivor = user(10_000, "stays@example.com", true);
        repo.add(survivor.clone());
        user_storage::workload::run_workload(&mut repo, 64, "email", "email2");
        for id in 0..64 {
            assert!(repo.get(&id).is_none(), "{label}");
        }
        assert_eq!(repo.get(&10_000), Some(&survivor), "{label}");
    }
}

#[test]
fn dynamic_dispatch_answers_as_static_dispatch() {
    let ops = mixed_ops();
    let mut results = Vec::new();
    for (_, mut repo) in all_repositories() {
        results.push(run_ops(&mut repo, &ops));
    }
    for pair in results.windows(2) {
        assert_eq!(pair[0], pair[1]);
    }
}

//! The stack, the email wrapper and the random pool.

use user_storage::email::{is_valid_email, EmailString};
use user_storage::random::Random;
use user_storage::stack::GlobalStack;

#[test]
fn fresh_stack_is_empty() {
    let mut stack: GlobalStack<i32> = GlobalStack::new();
    assert_eq!(stack.len(), 0);
    assert_eq!(stack.pop(), None);
}

#[test]
fn default_stack_is_empty() {
    let mut stack: GlobalStack<u8> = GlobalStack::default();
    assert_eq!(stack.pop(), None);
}

#[test]
fn stack_pops_in_reverse_order_of_pushes() {
    let mut stack = GlobalStack::from_vec(vec![1, 2, 3]);
    stack.push(4);
    assert_eq!(stack.len(), 4);
    assert_eq!(stack.pop(), Some(4));
    assert_eq!(stack.pop(), Some(3));
    assert_eq!(stack.pop(), Some(2));
    assert_eq!(stack.pop(), Some(1));
    assert_eq!(stack.pop(), None);
}

#[test]
fn email_shapes_are_recognised() {
    assert!(is_valid_email("user@mail.com"));
    assert!(is_valid_email("a@b.c"));
    assert!(!is_valid_email("usermail.com"));
    assert!(!is_valid_email("user@mailcom"));
    assert!(!is_valid_email("user@mail.co.uk"));
    assert!(!is_valid_email(""));
    assert!(!is_valid_email("@"));
    assert!(is_valid_email("@."));
}

#[test]
fn email_string_keeps_the_address() {
    let email = EmailString::new("someone@example.com");
    assert_eq!(email.as_str(), "someone@example.com");
}

#[test]
fn random_pool_hands_out_only_its_values() {
    let pool = Random::new(1, 2, 3);
    for _ in 0..50 {
        let drawn = *pool.get();
        assert!(drawn == 1 || drawn == 2 || drawn == 3);
    }
}

#[test]
fn random_pool_from_vector_keeps_the_first_three() {
    let pool = Random::from_vec(vec![3, 31, 314, 999]);
    for _ in 0..50 {
        let drawn = *pool.get();
        assert!(drawn == 3 || drawn == 31 || drawn == 314);
    }
}

#[test]
fn random_pool_of_one_value_always_hands_it_out() {
    let pool = Random::new('z', 'z', 'z');
    assert_eq!(*pool.get(), 'z');
}

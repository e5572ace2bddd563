//! A simple growable stack, abstracted as the sequence of its elements.

use vstd::prelude::*;

verus! {

/// A last-in, first-out stack over a dense sequence.  Its abstract value is
/// the sequence of elements, oldest first.
#[derive(Debug)]
pub struct GlobalStack<T> {
    items: Vec<T>,
}

impl<T> View for GlobalStack<T> {
    type V = Seq<T>;

    closed spec fn view(&self) -> Seq<T> {
        self.items@
    }
}

impl<T> GlobalStack<T> {
    /// A fresh, empty stack.
    pub fn new() -> (s: GlobalStack<T>)
        ensures
            s@ == Seq::<T>::empty(),
    {
        GlobalStack { items: Vec::new() }
    }

    /// A stack holding the given elements, bottom first.
    pub fn from_vec(vec: Vec<T>) -> (s: GlobalStack<T>)
        ensures
            s@ == vec@,
    {
        GlobalStack { items: vec }
    }

    /// Push an element on top.
    pub fn push(&mut self, value: T)
        ensures
            final(self)@ == old(self)@.push(value),
    {
        self.items.push(value);
    }

    /// Pop the top element; `None` leaves an empty stack unchanged.
    pub fn pop(&mut self) -> (r: Option<T>)
        ensures
            old(self)@.len() == 0 ==> r is None && final(self)@ == old(self)@,
            old(self)@.len() > 0 ==> r == Some(old(self)@.last()) && final(self)@ == old(
                self,
            )@.drop_last(),
    {
        let r = self.items.pop();
        proof {
            if old(self)@.len() > 0 {
                assert(old(self)@.subrange(0, old(self)@.len() - 1) =~= old(self)@.drop_last());
            }
        }
        r
    }

    /// How many elements the stack holds.
    pub fn len(&self) -> (n: usize)
        ensures
            n == self@.len(),
    {
        self.items.len()
    }
}

impl<T> Default for GlobalStack<T> {
    fn default() -> (s: GlobalStack<T>)
        ensures
            s@ == Seq::<T>::empty(),
    {
        GlobalStack::new()
    }
}

} // verus!

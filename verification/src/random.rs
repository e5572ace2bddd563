//! A fixed pool of three values, one of which is handed out at random.

use vstd::prelude::*;

use rand::seq::SliceRandom;

verus! {

/// Three values of one type; `get` draws one of them at random.
#[derive(Debug)]
pub struct Random<T> {
    choices: Vec<T>,
}

impl<T> Random<T> {
    /// The pool, in the order it was given.
    pub closed spec fn elems(&self) -> Seq<T> {
        self.choices@
    }

    /// A pool of exactly the three given values.
    pub fn new(a: T, b: T, c: T) -> (r: Self)
        ensures
            r.elems() =~= seq![a, b, c],
    {
        let mut choices: Vec<T> = Vec::new();
        choices.push(a);
        choices.push(b);
        choices.push(c);
        Random { choices }
    }

    /// A pool of the first three elements of the given vector; the rest is
    /// dropped.
    pub fn from_vec(data: Vec<T>) -> (r: Self)
        requires
            data@.len() >= 3,
        ensures
            r.elems() =~= seq![data@[0], data@[1], data@[2]],
    {
        let mut choices = data;
        choices.truncate(3);
        proof {
            assert(choices@ =~= seq![choices@[0], choices@[1], choices@[2]]);
        }
        Random { choices }
    }

    /// One of the pool's values, drawn at random.  Which one comes back is
    /// left open: every call may answer differently.
    ///
    /// Relies on `rand::seq::SliceRandom::choose`, which returns a
    /// reference to one element of a non-empty slice, drawn with the
    /// thread-local generator.
    #[verifier::external_body]
    pub fn get(&self) -> (r: &T)
        requires
            self.elems().len() > 0,
        ensures
            self.elems().contains(*r),
    {
        self.choices.choose(&mut rand::thread_rng()).unwrap()
    }
}

} // verus!

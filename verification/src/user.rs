//! The stored record type.

use vstd::prelude::*;

verus! {

/// A stored record: an identity, an email address and an activation flag.
///
/// The `id` field is the record's identity: no backend ever holds two
/// records under the same id, and every backend files a record under its
/// own id.
#[derive(Debug)]
pub struct User {
    pub id: u64,
    pub email: String,
    pub activated: bool,
}

impl Clone for User {
    fn clone(&self) -> (res: Self)
        ensures
            res == *self,
    {
        User { id: self.id, email: self.email.clone(), activated: self.activated }
    }
}

impl PartialEq for User {
    fn eq(&self, other: &User) -> (r: bool) {
        self.id == other.id && self.email == other.email && self.activated == other.activated
    }
}

impl vstd::std_specs::cmp::PartialEqSpecImpl for User {
    open spec fn obeys_eq_spec() -> bool {
        true
    }

    open spec fn eq_spec(&self, other: &User) -> bool {
        self.id == other.id && self.email@ == other.email@ && self.activated == other.activated
    }
}

} // verus!

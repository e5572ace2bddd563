//! A string statically known to have an email shape.
//!
//! The shape checked is deliberately light: the address must contain an
//! `@`, and the part after the first `@` must contain exactly one dot.

use vstd::prelude::*;

use vstd::string::StrSliceExecFns;

verus! {

/// How many times a character occurs in a sequence.
pub open spec fn count_char(s: Seq<char>, c: char) -> nat
    decreases s.len(),
{
    if s.len() == 0 {
        0
    } else {
        count_char(s.drop_last(), c) + if s.last() == c {
            1nat
        } else {
            0nat
        }
    }
}

/// `i` is the position of the first `@` of the sequence.
pub open spec fn is_first_at(s: Seq<char>, i: int) -> bool {
    &&& 0 <= i < s.len()
    &&& s[i] == '@'
    &&& forall|j: int| 0 <= j < i ==> s[j] != '@'
}

/// The email shape: an `@` occurs, and exactly one dot follows the first
/// `@`.
pub open spec fn valid_email(s: Seq<char>) -> bool {
    exists|i: int| is_first_at(s, i) && count_char(s.skip(i + 1), '.') == 1
}

/// Decide the email shape of a string.
pub fn is_valid_email(s: &str) -> (b: bool)
    ensures
        b == valid_email(s@),
{
    let n = s.unicode_len();
    let mut i: usize = 0;
    let mut at_pos: Option<usize> = None;
    while i < n
        invariant
            n == s@.len(),
            i <= n,
            match at_pos {
                Some(p) => is_first_at(s@, p as int) && p < i,
                None => forall|j: int| 0 <= j < i ==> s@[j] != '@',
            },
        decreases n - i,
    {
        if at_pos.is_none() && s.get_char(i) == '@' {
            at_pos = Some(i);
        }
        i = i + 1;
    }
    match at_pos {
        None => {
            proof {
                if valid_email(s@) {
                    let w = choose|w: int|
                        is_first_at(s@, w) && count_char(s@.skip(w + 1), '.') == 1;
                    assert(s@[w] != '@');
                }
            }
            false
        },
        Some(p) => {
            let mut k: usize = p + 1;
            let mut dots: usize = 0;
            while k < n
                invariant
                    n == s@.len(),
                    p + 1 <= k <= n,
                    dots + p + 1 <= k,
                    dots as nat == count_char(s@.subrange(p + 1, k as int), '.'),
                decreases n - k,
            {
                proof {
                    let q = s@.subrange(p + 1, k + 1);
                    assert(q.drop_last() =~= s@.subrange(p + 1, k as int));
                    assert(q.last() == s@[k as int]);
                }
                if s.get_char(k) == '.' {
                    dots = dots + 1;
                }
                k = k + 1;
            }
            proof {
                assert(s@.subrange(p + 1, n as int) =~= s@.skip(p + 1));
            }
            let ok = dots == 1;
            proof {
                if ok {
                    assert(is_first_at(s@, p as int) && count_char(s@.skip(p + 1), '.') == 1);
                } else {
                    if valid_email(s@) {
                        let w = choose|w: int|
                            is_first_at(s@, w) && count_char(s@.skip(w + 1), '.') == 1;
                        if w < p {
                            assert(s@[w] != '@');
                        } else if w > p {
                            assert(s@[p as int] != '@');
                        }
                        assert(w == p);
                    }
                }
            }
            ok
        },
    }
}

/// An email address: a string whose shape was checked at construction.
#[derive(Debug)]
pub struct EmailString {
    email: String,
}

impl View for EmailString {
    type V = Seq<char>;

    closed spec fn view(&self) -> Seq<char> {
        self.email@
    }
}

impl EmailString {
    /// The wrapper's guarantee: the held address has the email shape.
    pub open spec fn wf(&self) -> bool {
        valid_email(self@)
    }

    /// Wrap a string of email shape; `is_valid_email` decides the shape at
    /// run time for strings not statically known to have it.
    pub fn new(email: &str) -> (r: EmailString)
        requires
            valid_email(email@),
        ensures
            r@ == email@,
            r.wf(),
    {
        EmailString { email: email.to_owned() }
    }

    /// The address as a string slice.
    pub fn as_str(&self) -> (r: &str)
        ensures
            r@ == self@,
    {
        self.email.as_str()
    }
}

} // verus!

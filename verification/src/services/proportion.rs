//! Numbers between zero and one, held as whole counts of a fixed small part.

use vstd::prelude::*;

verus! {

/// The number of parts that make up one: two to the power 53.
pub const WHOLE: u64 = 9_007_199_254_740_992;

/// A number between zero and one inclusive, counted in parts of which
/// [`WHOLE`] make up one.
#[derive(Clone, Copy, Debug, PartialEq, Eq)]
pub struct Proportion {
    parts: u64,
}

impl View for Proportion {
    type V = nat;

    /// The number of parts held.
    closed spec fn view(&self) -> nat {
        self.parts as nat
    }
}

impl Proportion {
    #[verifier::type_invariant]
    spec fn within_whole(self) -> bool {
        self.parts <= WHOLE
    }

    /// The proportion of `parts` parts, where that is at most one.
    pub fn from_parts(parts: u64) -> (r: Option<Proportion>)
        ensures
            r is Some <==> parts <= WHOLE,
            r is Some ==> r->0@ == parts,
    {
        if parts <= WHOLE {
            Some(Proportion { parts })
        } else {
            None
        }
    }

    /// Zero: nothing in common.
    pub fn zero() -> (r: Proportion)
        ensures
            r@ == 0,
    {
        Proportion { parts: 0 }
    }

    /// One: the whole.
    pub fn one() -> (r: Proportion)
        ensures
            r@ == WHOLE,
    {
        Proportion { parts: WHOLE }
    }

    /// The number of parts held, which never exceeds [`WHOLE`].
    pub fn parts(&self) -> (r: u64)
        ensures
            r == self@,
            r <= WHOLE,
    {
        proof {
            use_type_invariant(self);
        }
        self.parts
    }
}

} // verus!

//! The always-empty directory listing.
//!
//! An HTTP origin is a flat namespace: it cannot be browsed. Listing a
//! directory therefore yields a sequence that is exhausted from the start —
//! "no entries" rather than an error.

use vstd::prelude::*;

verus! {

/// A lazy sequence of path entries that never has any.
pub struct EmptyListing {}

impl EmptyListing {
    /// The entries the listing will ever yield: none.
    pub open spec fn items(&self) -> Seq<Seq<char>> {
        Seq::empty()
    }

    /// A fresh, already-exhausted listing.
    pub fn new() -> (l: EmptyListing)
        ensures
            l.items() == Seq::<Seq<char>>::empty(),
    {
        EmptyListing {}
    }

    /// The next entry. There never is one, in any state.
    pub fn next(&mut self) -> (r: Option<String>)
        ensures
            r is None,
    {
        None
    }
}

} // verus!

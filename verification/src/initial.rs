//! The first-notification gate.
//!
//! Reactive effects run once when set up, and mutation observation
//! delivers one notification immediately upon subscribing.  Neither is a
//! real recomputation or mutation, so each such source is paired with a
//! gate that swallows exactly its first delivery.

use vstd::prelude::*;

verus! {

/// True exactly once: on the first query after construction.
#[derive(Clone, Copy, PartialEq, Eq, Structural, Debug)]
pub struct Initial {
    pub fresh: bool,
}

impl Initial {
    /// A gate that has not been queried yet.
    pub fn new() -> (r: Initial)
        ensures
            r.fresh,
    {
        Initial { fresh: true }
    }

    /// Whether this is the first query; every later query returns false.
    pub fn get(&mut self) -> (r: bool)
        ensures
            r == old(self).fresh,
            !final(self).fresh,
    {
        let was = self.fresh;
        self.fresh = false;
        was
    }
}

} // verus!

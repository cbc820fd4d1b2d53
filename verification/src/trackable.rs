//! The reactive-dependency handle.
//!
//! A behavior that must resnapshot on every recomputation declares a
//! dependency on the tracked value once per render pass, whether or not
//! any event fires.  The engine records each declaration here; the host
//! maps the recorded declarations onto its own reactivity system.

use vstd::prelude::*;

verus! {

/// Counts how many times a reactive dependency has been declared.
#[derive(Clone, Copy, PartialEq, Eq, Structural, Debug)]
pub struct Trackable {
    pub count: u64,
}

/// One more declaration; the count stops at its ceiling rather than
/// wrap.
pub open spec fn spec_track(pre: Trackable) -> Trackable {
    Trackable {
        count: if pre.count == u64::MAX {
            u64::MAX
        } else {
            (pre.count + 1) as u64
        },
    }
}

impl Trackable {
    /// A handle with no declarations yet.
    pub fn new() -> (r: Trackable)
        ensures
            r.count == 0,
    {
        Trackable { count: 0 }
    }

    /// Declares the dependency once more.
    pub fn track(&mut self)
        ensures
            *final(self) == spec_track(*old(self)),
    {
        if self.count < u64::MAX {
            self.count = self.count + 1;
        }
    }
}

} // verus!

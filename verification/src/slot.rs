//! Single-use slots.
//!
//! A continuation's before-entry and on-entry callbacks must each run at
//! most once.  They are kept in slots with a take-once discipline: taking
//! the content empties the slot, so a second path through the same code
//! finds nothing to run.

use vstd::prelude::*;

verus! {

/// A slot holding at most one value, emptied by the first take.
#[derive(Clone, PartialEq, Eq, Debug)]
pub struct Slot<T> {
    pub value: Option<T>,
}

impl<T> Slot<T> {
    /// An empty slot.
    pub fn empty() -> (r: Slot<T>)
        ensures
            r.value is None,
    {
        Slot { value: None }
    }

    /// A slot holding `v`.
    pub fn full(v: T) -> (r: Slot<T>)
        ensures
            r.value == Some(v),
    {
        Slot { value: Some(v) }
    }

    /// Whether the slot still holds its value.
    pub fn is_full(&self) -> (r: bool)
        ensures
            r == (self.value is Some),
    {
        self.value.is_some()
    }

    /// Takes the content, leaving the slot empty.  A second take returns
    /// nothing: this is what guarantees the at-most-once discipline.
    pub fn take(&mut self) -> (r: Option<T>)
        ensures
            final(self).value is None,
            r == old(self).value,
    {
        self.value.take()
    }
}

/// Consumes a slot that is known to still hold its value.  Callers use
/// this where a second consumption would indicate a broken exactly-once
/// guarantee, so an empty slot is ruled out up front rather than handled.
pub fn unwrap_cell<T>(slot: Slot<T>) -> (r: T)
    requires
        slot.value is Some,
    ensures
        r == slot.value->0,
{
    match slot.value {
        Some(v) => v,
        None => vstd::pervasive::unreached(),
    }
}

} // verus!

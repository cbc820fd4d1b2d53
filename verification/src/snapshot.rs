//! What the engine observes of an element.
//!
//! The host measures the real element right before delivering an event
//! and hands the engine this snapshot of everything a behavior may read.
//! Behaviors read snapshots and write commands; they never touch the
//! element itself.

use vstd::prelude::*;

use crate::classes::ClassList;
use crate::command::StyleEntry;
use crate::geometry::{Rect, COORD_LIMIT};

verus! {

/// A snapshot of one element, taken when an event is delivered.
#[derive(Clone, PartialEq, Eq, Debug)]
pub struct ElementSnapshot {
    /// Whether the element is currently attached to the visible tree.
    pub connected: bool,
    /// Whether the element carries the guard attribute that marks it as
    /// already revived by an exit continuation.
    pub marked_revived: bool,
    /// Whether a deep clone of the element can be made right now.
    pub clone_ok: bool,
    /// Whether the guard attribute can be set right now.
    pub mark_ok: bool,
    /// The element's bounding rectangle.
    pub rect: Rect,
    /// The document element's own offsets, subtracted when fixing an
    /// element to a viewport-relative position.
    pub document_left: i64,
    pub document_top: i64,
    /// The element's current class list.
    pub classes: ClassList,
    /// The element's current inline "transition-duration" entry.
    pub transition_duration: StyleEntry,
    /// The computed "transform-origin" style value.
    pub transform_origin: String,
    /// Whether the element currently has a parent element.
    pub parent_present: bool,
    /// Whether that parent is itself attached to the visible tree.
    pub parent_connected: bool,
}

impl ElementSnapshot {
    /// The geometry in the snapshot is within the engine's bounds.
    pub open spec fn wf(self) -> bool {
        &&& self.rect.wf()
        &&& -COORD_LIMIT <= self.document_left <= COORD_LIMIT
        &&& -COORD_LIMIT <= self.document_top <= COORD_LIMIT
    }

    /// Checks [`ElementSnapshot::wf`].
    pub fn check_wf(&self) -> (r: bool)
        ensures
            r == self.wf(),
    {
        self.rect.check_wf() && -COORD_LIMIT <= self.document_left && self.document_left
            <= COORD_LIMIT && -COORD_LIMIT <= self.document_top && self.document_top
            <= COORD_LIMIT
    }

    /// A detached, unmeasured element with nothing set: the neutral
    /// starting point that tests and hosts fill in field by field.
    pub fn blank() -> (r: ElementSnapshot)
        ensures
            r.wf(),
            !r.connected,
            !r.marked_revived,
            r.clone_ok,
            r.mark_ok,
            r.rect == (Rect { left: 0, top: 0, width: 0, height: 0 }),
            r.document_left == 0,
            r.document_top == 0,
            r.classes.classes.deep_view() == Seq::<Seq<char>>::empty(),
            r.transition_duration.value@ == Seq::<char>::empty(),
            r.transition_duration.priority@ == Seq::<char>::empty(),
            r.transform_origin@ == Seq::<char>::empty(),
            !r.parent_present,
            !r.parent_connected,
    {
        ElementSnapshot {
            connected: false,
            marked_revived: false,
            clone_ok: true,
            mark_ok: true,
            rect: Rect::zero(),
            document_left: 0,
            document_top: 0,
            classes: ClassList::new(),
            transition_duration: StyleEntry::empty(),
            transform_origin: String::new(),
            parent_present: false,
            parent_connected: false,
        }
    }
}

} // verus!

//! The lifecycle event taxonomy.

use vstd::prelude::*;

verus! {

/// The moments an element can emit over its life.
///
/// Each kind is independently optional: a behavior opts into a subset and
/// is only ever wired to the underlying sources for the kinds it opted
/// into.
#[derive(Clone, Copy, PartialEq, Eq, Structural, Debug)]
pub enum EventKind {
    /// Fires synchronously, before the element is inserted.
    BeforeEnter,
    /// Fires one rendering frame after insertion; delay-schedulable.
    Enter,
    /// Fires synchronously on every reactive recomputation the behavior
    /// depends on, before the host has applied the resulting changes.
    ImmediateEffect,
    /// Fires one tick after the recomputation that fired
    /// [`EventKind::ImmediateEffect`], once the host has applied its
    /// changes; delay-schedulable.
    Effect,
    /// The element's own subtree structure or attributes changed.
    Mutation,
    /// The parent element's subtree changed.
    ParentMutation,
    /// All native animations running on the element finished, following
    /// [`EventKind::Enter`].
    EnterAnimationsFinished,
    /// All native animations finished, following [`EventKind::Mutation`].
    MutationAnimationsFinished,
    /// All native animations finished, following
    /// [`EventKind::ParentMutation`].
    ParentMutationAnimationsFinished,
    /// The element is being permanently removed from the host's
    /// bookkeeping (not necessarily from the visible tree).
    Cleanup,
}

impl EventKind {
    /// The event kinds that are delivered through a subscription set up
    /// after construction; [`EventKind::BeforeEnter`] alone is handled
    /// synchronously at composition time instead.
    pub open spec fn subscribable(self) -> bool {
        self != EventKind::BeforeEnter
    }
}

/// Which event kinds a behavior opted into, one flag per kind.
#[derive(Clone, Copy, PartialEq, Eq, Structural, Debug)]
pub struct Interest {
    pub before_enter: bool,
    pub enter: bool,
    pub immediate_effect: bool,
    pub effect: bool,
    pub mutation: bool,
    pub parent_mutation: bool,
    pub enter_animations_finished: bool,
    pub mutation_animations_finished: bool,
    pub parent_mutation_animations_finished: bool,
    pub cleanup: bool,
}

impl Interest {
    /// The flag for one event kind.
    pub open spec fn spec_listens(self, kind: EventKind) -> bool {
        match kind {
            EventKind::BeforeEnter => self.before_enter,
            EventKind::Enter => self.enter,
            EventKind::ImmediateEffect => self.immediate_effect,
            EventKind::Effect => self.effect,
            EventKind::Mutation => self.mutation,
            EventKind::ParentMutation => self.parent_mutation,
            EventKind::EnterAnimationsFinished => self.enter_animations_finished,
            EventKind::MutationAnimationsFinished => self.mutation_animations_finished,
            EventKind::ParentMutationAnimationsFinished => self.parent_mutation_animations_finished,
            EventKind::Cleanup => self.cleanup,
        }
    }

    /// Reads the flag for one event kind.
    pub fn listens(&self, kind: EventKind) -> (r: bool)
        ensures
            r == self.spec_listens(kind),
    {
        match kind {
            EventKind::BeforeEnter => self.before_enter,
            EventKind::Enter => self.enter,
            EventKind::ImmediateEffect => self.immediate_effect,
            EventKind::Effect => self.effect,
            EventKind::Mutation => self.mutation,
            EventKind::ParentMutation => self.parent_mutation,
            EventKind::EnterAnimationsFinished => self.enter_animations_finished,
            EventKind::MutationAnimationsFinished => self.mutation_animations_finished,
            EventKind::ParentMutationAnimationsFinished => self.parent_mutation_animations_finished,
            EventKind::Cleanup => self.cleanup,
        }
    }
}

} // verus!

//! The class-toggling exit behavior.
//!
//! When the element leaves, it is revived by an exit continuation with
//! CSS classes powering its leaving animation, and removed again once
//! the animation finishes:
//! - `source`: added before the element is reinserted, removed one frame
//!   after;
//! - `active`: applied for the entire leaving phase;
//! - `target`: added one frame after reinsertion.

use vstd::prelude::*;

use crate::slot::Slot;
use crate::snapshot::ElementSnapshot;
use crate::transition_duration::TransitionDuration;
use crate::zombie::{EntryAction, ZombieAnimation};

verus! {

/// Initializes a class-driven exit animation.
#[derive(Clone, PartialEq, Eq, Debug)]
pub struct Out {
    pub duration: TransitionDuration,
    pub delay_ms: u64,
    pub enabled: bool,
    pub source: String,
    pub target: String,
    pub active: String,
}

impl Default for Out {
    /// No classes, no delay, enabled, finished on "transitionend".
    fn default() -> (r: Self)
        ensures
            r.duration == TransitionDuration::TransitionEnd,
            r.delay_ms == 0,
            r.enabled,
            r.source@ == Seq::<char>::empty(),
            r.target@ == Seq::<char>::empty(),
            r.active@ == Seq::<char>::empty(),
    {
        Out {
            duration: TransitionDuration::TransitionEnd,
            delay_ms: 0,
            enabled: true,
            source: String::new(),
            target: String::new(),
            active: String::new(),
        }
    }
}

impl Out {
    pub fn duration(self, duration: TransitionDuration) -> (r: Out)
        ensures
            r == (Out { duration, ..self }),
    {
        Out { duration, ..self }
    }

    pub fn delay_ms(self, delay_ms: u64) -> (r: Out)
        ensures
            r == (Out { delay_ms, ..self }),
    {
        Out { delay_ms, ..self }
    }

    pub fn enabled(self, enabled: bool) -> (r: Out)
        ensures
            r == (Out { enabled, ..self }),
    {
        Out { enabled, ..self }
    }

    pub fn source(self, value: &str) -> (r: Out)
        ensures
            r.source@ == value@,
            r == (Out { source: r.source, ..self }),
    {
        Out { source: value.to_owned(), ..self }
    }

    pub fn target(self, value: &str) -> (r: Out)
        ensures
            r.target@ == value@,
            r == (Out { target: r.target, ..self }),
    {
        Out { target: value.to_owned(), ..self }
    }

    pub fn active(self, value: &str) -> (r: Out)
        ensures
            r.active@ == value@,
            r == (Out { active: r.active, ..self }),
    {
        Out { active: value.to_owned(), ..self }
    }

    /// Binds the exit animation to an element: an exit continuation
    /// whose before-entry action applies the source and active classes
    /// and whose on-entry action restores the duration, removes the
    /// source classes, and applies the target classes.
    pub fn init_animation(self, element: &ElementSnapshot) -> (r: ZombieAnimation)
        ensures
            r.before_enter.value == Some(EntryAction::ApplyExitClasses {
                source: self.source,
                active: self.active,
            }),
            r.enter.value == Some(EntryAction::FinishExitClasses { target: self.target }),
            r.duration == self.duration,
            r.delay_ms == self.delay_ms,
            r.enabled == self.enabled,
            r.last_rect == element.rect,
            !r.parent_recorded,
            r.exit_saved is None,
            r.exit_added is None,
            r.suppressed is None,
    {
        ZombieAnimation {
            before_enter: Slot::full(
                EntryAction::ApplyExitClasses { source: self.source, active: self.active },
            ),
            enter: Slot::full(EntryAction::FinishExitClasses { target: self.target }),
            duration: self.duration,
            delay_ms: self.delay_ms,
            enabled: self.enabled,
            last_rect: element.rect,
            parent_recorded: false,
            exit_saved: None,
            exit_added: None,
            suppressed: None,
        }
    }
}

} // verus!

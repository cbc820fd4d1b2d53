//! The fade-out exit behavior: revives the leaving element as an exit
//! continuation that fades to nothing, and removes it once all of its
//! native animations finish.

use vstd::prelude::*;

use crate::slot::Slot;
use crate::snapshot::ElementSnapshot;
use crate::transition_duration::TransitionDuration;
use crate::zombie::{EntryAction, ZombieAnimation};

verus! {

/// Initializes a fading exit animation.
#[derive(Clone, Copy, PartialEq, Eq, Structural, Debug)]
pub struct Out {
    pub duration_ms: u64,
    pub delay_ms: u64,
    pub enabled: bool,
}

impl Default for Out {
    /// A fifth of a second, no delay, enabled.
    fn default() -> (r: Self)
        ensures
            r == (Out { duration_ms: 200, delay_ms: 0, enabled: true }),
    {
        Out { duration_ms: 200, delay_ms: 0, enabled: true }
    }
}

impl Out {
    pub fn duration_ms(self, duration_ms: u64) -> (r: Out)
        ensures
            r == (Out { duration_ms, ..self }),
    {
        Out { duration_ms, ..self }
    }

    pub fn delay_ms(self, delay_ms: u64) -> (r: Out)
        ensures
            r == (Out { delay_ms, ..self }),
    {
        Out { delay_ms, ..self }
    }

    pub fn enabled(self, enabled: bool) -> (r: Out)
        ensures
            r == (Out { enabled, ..self }),
    {
        Out { enabled, ..self }
    }

    /// Binds the fade to an element: an exit continuation whose
    /// before-entry action starts the fade and which removes the
    /// element once all of its native animations finish.
    pub fn init_animation(self, element: &ElementSnapshot) -> (r: ZombieAnimation)
        ensures
            r.before_enter.value == Some(EntryAction::FadeOut {
                duration_ms: self.duration_ms,
                delay_ms: self.delay_ms,
            }),
            r.enter.value is None,
            r.duration == TransitionDuration::AnimationsFinished,
            r.delay_ms == self.delay_ms,
            r.enabled == self.enabled,
            r.last_rect == element.rect,
            !r.parent_recorded,
            r.exit_saved is None,
            r.exit_added is None,
            r.suppressed is None,
    {
        ZombieAnimation {
            before_enter: Slot::full(
                EntryAction::FadeOut { duration_ms: self.duration_ms, delay_ms: self.delay_ms },
            ),
            enter: Slot::empty(),
            duration: TransitionDuration::AnimationsFinished,
            delay_ms: self.delay_ms,
            enabled: self.enabled,
            last_rect: element.rect,
            parent_recorded: false,
            exit_saved: None,
            exit_added: None,
            suppressed: None,
        }
    }
}

} // verus!

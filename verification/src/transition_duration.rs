//! When a transition counts as finished.

use vstd::prelude::*;

use crate::command::Command;

verus! {

/// Defines when a transition should be considered finished:
/// - after a fixed number of milliseconds
/// - on the element's "animationend" event
/// - (default) on the element's "transitionend" event
/// - when a host-supplied future, identified by a token, resolves
/// - on the first moment all of the element's native animations finish
#[derive(Clone, Copy, PartialEq, Eq, Structural, Debug)]
pub enum TransitionDuration {
    Fixed(u64),
    AnimationEnd,
    TransitionEnd,
    Future(u64),
    AnimationsFinished,
}

impl Default for TransitionDuration {
    /// The default completion signal is the "transitionend" event.
    fn default() -> (r: Self)
        ensures
            r == TransitionDuration::TransitionEnd,
    {
        TransitionDuration::TransitionEnd
    }
}

impl TransitionDuration {
    /// A fixed duration, in milliseconds.
    pub fn fixed_ms(ms: u64) -> (r: Self)
        ensures
            r == TransitionDuration::Fixed(ms),
    {
        TransitionDuration::Fixed(ms)
    }

    /// The command that removes the element for good once this signal
    /// fires: a timer for a fixed duration, the matching end event, the
    /// host future, or the all-animations-finished moment.
    pub fn on_transition_end(&self) -> (c: Command)
        ensures
            c == Command::RemoveElementAfter(*self),
    {
        Command::RemoveElementAfter(*self)
    }
}

} // verus!

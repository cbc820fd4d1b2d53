//! The commands behaviors hand to the host.
//!
//! Behaviors never touch the element directly: each handler returns the
//! sequence of commands it wants performed, in order, and the host carries
//! them out against the real tree.  Everything a command needs is a plain
//! value, so what a behavior decides is fully captured here.

use vstd::prelude::*;

use crate::transition_duration::TransitionDuration;

verus! {

/// A saved inline style entry: its value and its priority, so it can be
/// restored exactly as it was.
#[derive(PartialEq, Eq, Debug)]
pub struct StyleEntry {
    pub value: String,
    pub priority: String,
}

impl Clone for StyleEntry {
    fn clone(&self) -> (r: Self)
        ensures
            r == *self,
    {
        StyleEntry { value: self.value.clone(), priority: self.priority.clone() }
    }
}

impl StyleEntry {
    /// Both parts empty, the state of a property that was never set.
    pub fn empty() -> (r: StyleEntry)
        ensures
            r.value@ == Seq::<char>::empty(),
            r.priority@ == Seq::<char>::empty(),
    {
        StyleEntry { value: String::new(), priority: String::new() }
    }
}

/// The shape of a keyframe animation a behavior starts.  The host samples
/// the keyframes; the engine decides only what is animated.
#[derive(Clone, Copy, PartialEq, Eq, Structural, Debug)]
pub enum KeyframeSpec {
    /// A time-reversed travel animation: starts translated by the full
    /// delta and eases to rest, so the move appears continuous.
    Translate { dx: i64, dy: i64 },
    /// A time-reversed rescale: starts at the prior width and height
    /// ratios and eases each axis to one.
    Rescale { last_width: i64, last_height: i64, new_width: i64, new_height: i64 },
    /// Opacity from one to zero.
    FadeOut,
    /// Scale from zero to one.
    ZoomIn,
}

/// How long an animation runs: fixed, or computed by the host's
/// duration function from the magnitude of the delta.
#[derive(Clone, Copy, PartialEq, Eq, Structural, Debug)]
pub enum DurationChoice {
    Millis(u64),
    /// The host's distance-based function, applied to the travel distance
    /// whose square is given.
    FromTravelDistanceSq(u128),
    /// The host's scale-based function, applied to the larger of the two
    /// axis ratios given by these dimensions.
    FromScale { last_width: i64, last_height: i64, new_width: i64, new_height: i64 },
}

/// One keyframe animation to start on the element.
#[derive(Clone, Copy, PartialEq, Eq, Structural, Debug)]
pub struct AnimationSpec {
    /// Identifies the started animation, so a later command can cancel it.
    pub handle: u64,
    pub keyframes: KeyframeSpec,
    pub duration: DurationChoice,
    pub delay_ms: u64,
}

/// Cancels the animation a geometry behavior previously started, if any,
/// and forgets its handle; a new delta never stacks on a stale one.
pub fn cancel_previous(handle: &mut Option<u64>) -> (cmds: Vec<Command>)
    ensures
        *final(handle) is None,
        *old(handle) matches Some(h) ==> cmds@ == seq![Command::CancelAnimation(h)],
        *old(handle) is None ==> cmds@ == Seq::<Command>::empty(),
{
    let mut cmds: Vec<Command> = Vec::new();
    match handle.take() {
        Some(h) => {
            cmds.push(Command::CancelAnimation(h));
        },
        None => {},
    }
    cmds
}

/// One instruction to the host, performed against the element a behavior
/// is bound to.
#[derive(Clone, PartialEq, Eq, Debug)]
pub enum Command {
    /// Add exactly these classes to the element's class list.
    AddClasses(Vec<String>),
    /// Remove exactly these classes from the element's class list.
    RemoveClasses(Vec<String>),
    /// Set the element's inline "transition-duration" to zero with
    /// maximum precedence, suppressing transitions during setup.
    SuppressTransitionDuration,
    /// Restore the element's inline "transition-duration" to a saved
    /// value and priority.
    RestoreTransitionDuration(StyleEntry),
    /// Fix the element to this absolute, viewport-relative position and
    /// size with maximum style precedence: position fixed, zero margin,
    /// no pointer events, and these four pixel lengths.
    FixPosition { top: i64, left: i64, width: i64, height: i64 },
    /// Replace the working element by a deep clone of itself.
    CloneElement,
    /// Set the guard attribute marking the element as revived by a
    /// continuation.
    MarkRevived,
    /// Re-append the element to its last known parent.
    AppendToParent,
    /// Remove the element from its parent for good.
    RemoveElement,
    /// Run the caller-supplied callback identified by this token.
    RunCallback(u64),
    /// Start a keyframe animation on the element.
    StartAnimation(AnimationSpec),
    /// Cancel the animation started under this handle.
    CancelAnimation(u64),
    /// Wait one rendering frame plus this delay, then hand control back
    /// to the continuation that issued the command.
    AwaitRevivalTick { delay_ms: u64 },
    /// Wait this delay, then deliver the event to the aggregate child at
    /// this index, re-checking liveness at delivery time.
    ScheduleDelayed { child: usize, kind: crate::events::EventKind, delay_ms: u64 },
    /// Wait one reactive tick, so the host finishes applying the
    /// changes of the current recomputation, then deliver the update.
    AwaitUpdateTick,
    /// Remove the element once the given completion signal fires.
    RemoveElementAfter(TransitionDuration),
    /// Remove these classes once the given completion signal fires.
    RemoveClassesAfter { when: TransitionDuration, classes: Vec<String> },
    /// Log that a revival was abandoned; the element is left untouched.
    LogError(crate::zombie::ZombieError),
}

} // verus!

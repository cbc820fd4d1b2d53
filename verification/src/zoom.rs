//! The zoom-in behavior: scales an element up from nothing when it
//! enters the visible tree.

use vstd::prelude::*;

use crate::command::{AnimationSpec, Command, DurationChoice, KeyframeSpec};
use crate::events::EventKind;

verus! {

/// The zoom's reaction to any lifecycle event: it starts its animation
/// right before entry and ignores everything else.
pub open spec fn zoom_step(
    pre: In,
    kind: EventKind,
    post: In,
    cmds: Seq<Command>,
) -> bool {
    match kind {
        EventKind::BeforeEnter => post == pre && cmds == seq![
            Command::StartAnimation(AnimationSpec {
                handle: 0,
                keyframes: KeyframeSpec::ZoomIn,
                duration: DurationChoice::Millis(pre.duration_ms),
                delay_ms: pre.delay_ms,
            }),
        ],
        _ => post == pre && cmds == Seq::<Command>::empty(),
    }
}

/// Zooms an element in on entry.  The animation starts synchronously
/// before the element becomes visible, so no frame shows it unscaled.
#[derive(Clone, Copy, PartialEq, Eq, Structural, Debug)]
pub struct In {
    pub duration_ms: u64,
    pub delay_ms: u64,
    pub enabled: bool,
}

impl Default for In {
    /// A fifth of a second, no delay, enabled.
    fn default() -> (r: Self)
        ensures
            r == (In { duration_ms: 200, delay_ms: 0, enabled: true }),
    {
        In { duration_ms: 200, delay_ms: 0, enabled: true }
    }
}

impl In {
    pub fn duration_ms(self, duration_ms: u64) -> (r: In)
        ensures
            r == (In { duration_ms, ..self }),
    {
        In { duration_ms, ..self }
    }

    pub fn delay_ms(self, delay_ms: u64) -> (r: In)
        ensures
            r == (In { delay_ms, ..self }),
    {
        In { delay_ms, ..self }
    }

    pub fn enabled(self, enabled: bool) -> (r: In)
        ensures
            r == (In { enabled, ..self }),
    {
        In { enabled, ..self }
    }

    pub fn listening_for_before_enter(&self) -> (r: bool)
        ensures
            r,
    {
        true
    }

    /// Starts the zoom, from scale zero to rest.  This behavior never
    /// cancels what it started, so the handle carries no information.
    pub fn on_before_enter(&self) -> (cmds: Vec<Command>)
        ensures
            cmds@ == seq![
                Command::StartAnimation(AnimationSpec {
                    handle: 0,
                    keyframes: KeyframeSpec::ZoomIn,
                    duration: DurationChoice::Millis(self.duration_ms),
                    delay_ms: self.delay_ms,
                }),
            ],
    {
        let mut cmds: Vec<Command> = Vec::new();
        cmds.push(
            Command::StartAnimation(
                AnimationSpec {
                    handle: 0,
                    keyframes: KeyframeSpec::ZoomIn,
                    duration: DurationChoice::Millis(self.duration_ms),
                    delay_ms: self.delay_ms,
                },
            ),
        );
        cmds
    }
}

} // verus!

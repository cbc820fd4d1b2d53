//! The resize-scale behavior.
//!
//! Snapshots the element's size on every immediate update, re-measures
//! once the host has applied its changes, and if the size changed, plays
//! a time-reversed per-axis rescale from the prior ratio to one.  The
//! scale is applied to the whole element, content included.

use vstd::prelude::*;

use crate::command::{cancel_previous, AnimationSpec, Command, DurationChoice, KeyframeSpec};
use crate::events::EventKind;
use crate::geometry::Rect;
use crate::snapshot::ElementSnapshot;
use crate::trackable::Trackable;

verus! {

/// Duration of the rescale: fixed, or left to the host's monotonic
/// function of the scale factor.
#[derive(Clone, Copy, PartialEq, Eq, Structural, Debug)]
pub enum Duration {
    Fixed(u64),
    ScaleBased,
}

impl Default for Duration {
    /// By default the duration grows with the scale factor.
    fn default() -> (r: Self)
        ensures
            r == Duration::ScaleBased,
    {
        Duration::ScaleBased
    }
}

/// Initializes a resize transition for an element: when the tracked
/// value changes and the element's size changes, the rescale plays.
#[derive(Clone, Copy, PartialEq, Eq, Structural, Debug)]
pub struct Resize {
    pub trackable: Trackable,
    pub duration: Duration,
    pub delay_ms: u64,
    pub enabled: bool,
}

impl Resize {
    /// A resize bound to the given tracked dependency, with the default
    /// duration, no delay, and enabled.
    pub fn watch(trackable: Trackable) -> (r: Resize)
        ensures
            r == (Resize { trackable, duration: Duration::ScaleBased, delay_ms: 0, enabled: true }),
    {
        Resize { trackable, duration: Duration::ScaleBased, delay_ms: 0, enabled: true }
    }

    pub fn duration(self, duration: Duration) -> (r: Resize)
        ensures
            r == (Resize { duration, ..self }),
    {
        Resize { duration, ..self }
    }

    pub fn delay_ms(self, delay_ms: u64) -> (r: Resize)
        ensures
            r == (Resize { delay_ms, ..self }),
    {
        Resize { delay_ms, ..self }
    }

    pub fn enabled(self, enabled: bool) -> (r: Resize)
        ensures
            r == (Resize { enabled, ..self }),
    {
        Resize { enabled, ..self }
    }

    /// Binds the resize to an element, snapshotting its current
    /// rectangle.
    pub fn init_animation(self, element: &ElementSnapshot) -> (r: ResizeAnimation)
        ensures
            r == (ResizeAnimation {
                trackable: self.trackable,
                duration: self.duration,
                delay_ms: self.delay_ms,
                enabled: self.enabled,
                last_rect: element.rect,
                handle: None,
                next_handle: 0,
            }),
    {
        ResizeAnimation {
            trackable: self.trackable,
            duration: self.duration,
            delay_ms: self.delay_ms,
            enabled: self.enabled,
            last_rect: element.rect,
            handle: None,
            next_handle: 0,
        }
    }
}

/// A resize bound to one element.
#[derive(Clone, Copy, PartialEq, Eq, Structural, Debug)]
pub struct ResizeAnimation {
    pub trackable: Trackable,
    pub duration: Duration,
    pub delay_ms: u64,
    pub enabled: bool,
    /// The rectangle recorded at the latest immediate update.
    pub last_rect: Rect,
    /// The animation this behavior last started and has not cancelled.
    pub handle: Option<u64>,
    /// The handle the next started animation will carry.
    pub next_handle: u64,
}

/// Whether a rescale is owed: the element is visible and one of its
/// dimensions changed.  The per-axis ratios are carried as the pairs of
/// dimensions themselves.
pub open spec fn spec_resize_needed(last: Rect, new: Rect) -> bool {
    &&& new.width != 0
    &&& new.height != 0
    &&& (last.width != new.width || last.height != new.height)
}

/// The duration choice a rescale between these rectangles selects.
pub open spec fn spec_resize_duration(d: Duration, last: Rect, new: Rect) -> DurationChoice {
    match d {
        Duration::Fixed(ms) => DurationChoice::Millis(ms),
        Duration::ScaleBased => DurationChoice::FromScale {
            last_width: last.width,
            last_height: last.height,
            new_width: new.width,
            new_height: new.height,
        },
    }
}

/// Everything one effect step of the resize promises: a new rescale
/// starts, after cancelling any stale one, exactly when the visible
/// element's size changed.
pub open spec fn resize_effect_post(
    pre: ResizeAnimation,
    env: ElementSnapshot,
    post: ResizeAnimation,
    cmds: Seq<Command>,
) -> bool {
    &&& post.last_rect == pre.last_rect
    &&& post.trackable == pre.trackable
    &&& post.duration == pre.duration
    &&& post.delay_ms == pre.delay_ms
    &&& post.enabled == pre.enabled
    &&& if spec_resize_needed(pre.last_rect, env.rect) {
        let cancel: Seq<Command> = match pre.handle {
            Some(h) => seq![Command::CancelAnimation(h)],
            None => Seq::empty(),
        };
        &&& cmds == cancel.push(Command::StartAnimation(AnimationSpec {
            handle: pre.next_handle,
            keyframes: KeyframeSpec::Rescale {
                last_width: pre.last_rect.width,
                last_height: pre.last_rect.height,
                new_width: env.rect.width,
                new_height: env.rect.height,
            },
            duration: spec_resize_duration(pre.duration, pre.last_rect, env.rect),
            delay_ms: pre.delay_ms,
        }))
        &&& post.handle == Some(pre.next_handle)
        &&& post.next_handle == crate::flip::spec_next_handle(pre.next_handle)
    } else {
        &&& cmds == Seq::<Command>::empty()
        &&& post.handle == pre.handle
        &&& post.next_handle == pre.next_handle
    }
}

/// The resize's reaction to any lifecycle event: it snapshots on
/// immediate updates, animates on effects, and ignores everything else.
pub open spec fn resize_step(
    pre: ResizeAnimation,
    kind: EventKind,
    env: ElementSnapshot,
    post: ResizeAnimation,
    cmds: Seq<Command>,
) -> bool {
    match kind {
        EventKind::ImmediateEffect => post == (ResizeAnimation { last_rect: env.rect, ..pre })
            && cmds == Seq::<Command>::empty(),
        EventKind::Effect => resize_effect_post(pre, env, post, cmds),
        _ => post == pre && cmds == Seq::<Command>::empty(),
    }
}

impl ResizeAnimation {
    pub open spec fn wf(self) -> bool {
        self.last_rect.wf()
    }

    pub fn listening_for_immediate_effect(&self) -> (r: bool)
        ensures
            r,
    {
        true
    }

    pub fn listening_for_effect(&self) -> (r: bool)
        ensures
            r,
    {
        true
    }

    pub fn effect_delay(&self) -> (r: u64)
        ensures
            r == self.delay_ms,
    {
        self.delay_ms
    }

    pub fn enabled(&self) -> (r: bool)
        ensures
            r == self.enabled,
    {
        self.enabled
    }

    /// Declares the reactive dependency this behavior watches.
    pub fn track(&mut self)
        ensures
            *final(self) == (ResizeAnimation {
                trackable: crate::trackable::spec_track(old(self).trackable),
                ..*old(self)
            }),
    {
        self.trackable.track();
    }

    /// Records the rectangle the element had before the host applied the
    /// changes of the current recomputation.
    pub fn on_immediate_effect(&mut self, element: &ElementSnapshot)
        ensures
            *final(self) == (ResizeAnimation { last_rect: element.rect, ..*old(self) }),
    {
        self.last_rect = element.rect;
    }

    /// Re-measures, and if the size changed, cancels any stale rescale
    /// and starts the new one; an unchanged size starts nothing, and an
    /// invisible element is never rescaled.
    pub fn on_effect(&mut self, element: &ElementSnapshot) -> (cmds: Vec<Command>)
        requires
            old(self).wf(),
            element.wf(),
        ensures
            resize_effect_post(*old(self), *element, *final(self), cmds@),
    {
        if element.rect.degenerate() {
            return Vec::new();
        }
        if self.last_rect.width == element.rect.width && self.last_rect.height
            == element.rect.height {
            return Vec::new();
        }
        let mut cmds: Vec<Command> = cancel_previous(&mut self.handle);
        let duration: DurationChoice = match self.duration {
            Duration::Fixed(ms) => DurationChoice::Millis(ms),
            Duration::ScaleBased => DurationChoice::FromScale {
                last_width: self.last_rect.width,
                last_height: self.last_rect.height,
                new_width: element.rect.width,
                new_height: element.rect.height,
            },
        };
        let handle: u64 = self.next_handle;
        self.next_handle = if self.next_handle == u64::MAX {
            0
        } else {
            self.next_handle + 1
        };
        self.handle = Some(handle);
        cmds.push(
            Command::StartAnimation(
                AnimationSpec {
                    handle,
                    keyframes: KeyframeSpec::Rescale {
                        last_width: self.last_rect.width,
                        last_height: self.last_rect.height,
                        new_width: element.rect.width,
                        new_height: element.rect.height,
                    },
                    duration,
                    delay_ms: self.delay_ms,
                },
            ),
        );
        cmds
    }
}


/// Geometry-delta law: if the element's rectangle is the same at
/// immediate-update time and at effect time, the effect step starts no
/// animation — in fact it does nothing at all.
pub proof fn lemma_unresized_element_not_animated(
    pre: ResizeAnimation,
    env: ElementSnapshot,
    post: ResizeAnimation,
    cmds: Seq<Command>,
)
    requires
        resize_effect_post(pre, env, post, cmds),
        env.rect == pre.last_rect,
    ensures
        cmds == Seq::<Command>::empty(),
        post == pre,
{
}

} // verus!

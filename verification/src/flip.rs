//! The position-flip behavior.
//!
//! Snapshots the element's bounding rectangle on every immediate update,
//! re-measures once the host has applied its changes, and if the element
//! travelled, plays a time-reversed translation that makes the move
//! appear continuous.

use vstd::prelude::*;

use crate::command::{cancel_previous, AnimationSpec, Command, DurationChoice, KeyframeSpec};
use crate::events::EventKind;
use crate::geometry::{spec_travel_axis, travel_axis, Rect};
use crate::origin::{parse_origin_spec, parse_transform_origin};
use crate::snapshot::ElementSnapshot;
use crate::trackable::Trackable;

verus! {

/// Duration of the travel animation: fixed, or left to the host's
/// monotonic function of the travel distance.
#[derive(Clone, Copy, PartialEq, Eq, Structural, Debug)]
pub enum Duration {
    Fixed(u64),
    DistanceBased,
}

impl Default for Duration {
    /// By default the duration grows with the distance travelled.
    fn default() -> (r: Self)
        ensures
            r == Duration::DistanceBased,
    {
        Duration::DistanceBased
    }
}

/// Initializes a flip transition for an element: when the tracked value
/// changes and the element's position moves, the travel animation plays.
#[derive(Clone, Copy, PartialEq, Eq, Structural, Debug)]
pub struct Flip {
    pub trackable: Trackable,
    pub duration: Duration,
    pub delay_ms: u64,
    pub enabled: bool,
}

impl Flip {
    /// A flip bound to the given tracked dependency, with the default
    /// duration, no delay, and enabled.
    pub fn watch(trackable: Trackable) -> (r: Flip)
        ensures
            r == (Flip { trackable, duration: Duration::DistanceBased, delay_ms: 0, enabled: true }),
    {
        Flip { trackable, duration: Duration::DistanceBased, delay_ms: 0, enabled: true }
    }

    pub fn duration(self, duration: Duration) -> (r: Flip)
        ensures
            r == (Flip { duration, ..self }),
    {
        Flip { duration, ..self }
    }

    pub fn delay_ms(self, delay_ms: u64) -> (r: Flip)
        ensures
            r == (Flip { delay_ms, ..self }),
    {
        Flip { delay_ms, ..self }
    }

    pub fn enabled(self, enabled: bool) -> (r: Flip)
        ensures
            r == (Flip { enabled, ..self }),
    {
        Flip { enabled, ..self }
    }

    /// Binds the flip to an element, snapshotting its current rectangle.
    pub fn init_animation(self, element: &ElementSnapshot) -> (r: FlipAnimation)
        ensures
            r == (FlipAnimation {
                trackable: self.trackable,
                duration: self.duration,
                delay_ms: self.delay_ms,
                enabled: self.enabled,
                last_rect: element.rect,
                handle: None,
                next_handle: 0,
            }),
    {
        FlipAnimation {
            trackable: self.trackable,
            duration: self.duration,
            delay_ms: self.delay_ms,
            enabled: self.enabled,
            last_rect: element.rect,
            handle: None,
            next_handle: 0,
        }
    }
}

/// A flip bound to one element.
#[derive(Clone, Copy, PartialEq, Eq, Structural, Debug)]
pub struct FlipAnimation {
    pub trackable: Trackable,
    pub duration: Duration,
    pub delay_ms: u64,
    pub enabled: bool,
    /// The rectangle recorded at the latest immediate update.
    pub last_rect: Rect,
    /// The animation this behavior last started and has not cancelled.
    pub handle: Option<u64>,
    /// The handle the next started animation will carry.
    pub next_handle: u64,
}

/// The travel the element appears to have made between the recorded
/// rectangle and the new one, given the parsed transform-origin; nothing
/// if the origin is malformed.  An element with zero rendered size
/// cannot have moved.
pub open spec fn spec_flip_delta(last: Rect, new: Rect, origin: Option<(int, int)>) -> Option<
    (int, int),
> {
    if new.width == 0 || new.height == 0 {
        Some((0, 0))
    } else {
        match origin {
            None => None,
            Some((ox, oy)) => Some(
                (
                    spec_travel_axis(last.left as int, last.width as int, new.left as int,
                        new.width as int, ox),
                    spec_travel_axis(last.top as int, last.height as int, new.top as int,
                        new.height as int, oy),
                ),
            ),
        }
    }
}

/// The duration choice a travel of `(dx, dy)` selects under this policy.
pub open spec fn spec_flip_duration(d: Duration, dx: int, dy: int) -> DurationChoice {
    match d {
        Duration::Fixed(ms) => DurationChoice::Millis(ms),
        Duration::DistanceBased => DurationChoice::FromTravelDistanceSq(
            (dx * dx + dy * dy) as u128,
        ),
    }
}

/// The handle counter after one animation start.
pub open spec fn spec_next_handle(h: u64) -> u64 {
    if h == u64::MAX {
        0
    } else {
        (h + 1) as u64
    }
}

/// Everything one effect step of the flip promises: the stale animation
/// is cancelled, and a new travel animation starts exactly when the
/// element moved.
pub open spec fn flip_effect_post(
    pre: FlipAnimation,
    env: ElementSnapshot,
    post: FlipAnimation,
    cmds: Seq<Command>,
) -> bool {
    let cancel: Seq<Command> = match pre.handle {
        Some(h) => seq![Command::CancelAnimation(h)],
        None => Seq::empty(),
    };
    let delta = spec_flip_delta(pre.last_rect, env.rect, parse_origin_spec(
        env.transform_origin@,
    ));
    &&& post.last_rect == pre.last_rect
    &&& post.trackable == pre.trackable
    &&& post.duration == pre.duration
    &&& post.delay_ms == pre.delay_ms
    &&& post.enabled == pre.enabled
    &&& match delta {
        None => cmds == cancel && post.handle is None && post.next_handle == pre.next_handle,
        Some((dx, dy)) => {
            if dx == 0 && dy == 0 {
                cmds == cancel && post.handle is None && post.next_handle == pre.next_handle
            } else {
                &&& cmds == cancel.push(Command::StartAnimation(AnimationSpec {
                    handle: pre.next_handle,
                    keyframes: KeyframeSpec::Translate { dx: dx as i64, dy: dy as i64 },
                    duration: spec_flip_duration(pre.duration, dx, dy),
                    delay_ms: pre.delay_ms,
                }))
                &&& post.handle == Some(pre.next_handle)
                &&& post.next_handle == spec_next_handle(pre.next_handle)
            }
        },
    }
}

/// The flip's reaction to any lifecycle event: it snapshots on immediate
/// updates, animates on effects, and ignores everything else.
pub open spec fn flip_step(
    pre: FlipAnimation,
    kind: EventKind,
    env: ElementSnapshot,
    post: FlipAnimation,
    cmds: Seq<Command>,
) -> bool {
    match kind {
        EventKind::ImmediateEffect => post == (FlipAnimation { last_rect: env.rect, ..pre })
            && cmds == Seq::<Command>::empty(),
        EventKind::Effect => flip_effect_post(pre, env, post, cmds),
        _ => post == pre && cmds == Seq::<Command>::empty(),
    }
}

impl FlipAnimation {
    pub open spec fn wf(self) -> bool {
        self.last_rect.wf()
    }

    pub fn listening_for_immediate_effect(&self) -> (r: bool)
        ensures
            r,
    {
        true
    }

    pub fn listening_for_effect(&self) -> (r: bool)
        ensures
            r,
    {
        true
    }

    pub fn effect_delay(&self) -> (r: u64)
        ensures
            r == self.delay_ms,
    {
        self.delay_ms
    }

    pub fn enabled(&self) -> (r: bool)
        ensures
            r == self.enabled,
    {
        self.enabled
    }

    /// Declares the reactive dependency this behavior watches.
    pub fn track(&mut self)
        ensures
            *final(self) == (FlipAnimation {
                trackable: crate::trackable::spec_track(old(self).trackable),
                ..*old(self)
            }),
    {
        self.trackable.track();
    }

    /// Records the rectangle the element had before the host applied the
    /// changes of the current recomputation.
    pub fn on_immediate_effect(&mut self, element: &ElementSnapshot)
        ensures
            *final(self) == (FlipAnimation { last_rect: element.rect, ..*old(self) }),
    {
        self.last_rect = element.rect;
    }

    /// Re-measures, and if the element travelled, cancels any stale
    /// travel animation and starts the new one; an unchanged rectangle
    /// starts nothing.
    pub fn on_effect(&mut self, element: &ElementSnapshot) -> (cmds: Vec<Command>)
        requires
            old(self).wf(),
            element.wf(),
        ensures
            flip_effect_post(*old(self), *element, *final(self), cmds@),
    {
        let mut cmds: Vec<Command> = cancel_previous(&mut self.handle);
        if element.rect.degenerate() {
            return cmds;
        }
        let origin = parse_transform_origin(self.as_origin_str(element));
        let (ox, oy) = match origin {
            Some(p) => p,
            None => {
                return cmds;
            },
        };
        let dx: i64 = travel_axis(
            self.last_rect.left,
            self.last_rect.width,
            element.rect.left,
            element.rect.width,
            ox,
        );
        let dy: i64 = travel_axis(
            self.last_rect.top,
            self.last_rect.height,
            element.rect.top,
            element.rect.height,
            oy,
        );
        if dx == 0 && dy == 0 {
            return cmds;
        }
        let duration: DurationChoice = match self.duration {
            Duration::Fixed(ms) => DurationChoice::Millis(ms),
            Duration::DistanceBased => DurationChoice::FromTravelDistanceSq(distance_sq(dx, dy)),
        };
        let handle: u64 = self.next_handle;
        self.next_handle = if self.next_handle == u64::MAX {
            0
        } else {
            self.next_handle + 1
        };
        self.handle = Some(handle);
        cmds.push(
            Command::StartAnimation(
                AnimationSpec {
                    handle,
                    keyframes: KeyframeSpec::Translate { dx, dy },
                    duration,
                    delay_ms: self.delay_ms,
                },
            ),
        );
        cmds
    }

    /// The computed transform-origin string of the snapshot.
    fn as_origin_str<'a>(&self, element: &'a ElementSnapshot) -> (r: &'a str)
        ensures
            r@ == element.transform_origin@,
    {
        element.transform_origin.as_str()
    }
}

/// The square of the travel distance.
fn distance_sq(dx: i64, dy: i64) -> (r: u128)
    requires
        -0x2000_0000_0000_0000 <= dx <= 0x2000_0000_0000_0000,
        -0x2000_0000_0000_0000 <= dy <= 0x2000_0000_0000_0000,
    ensures
        r == (dx * dx + dy * dy) as u128,
        dx * dx + dy * dy >= 0,
{
    let ax: u64 = if dx >= 0 {
        dx as u64
    } else {
        (-dx) as u64
    };
    let ay: u64 = if dy >= 0 {
        dy as u64
    } else {
        (-dy) as u64
    };
    proof {
        assert(ax * ax == dx * dx && ax <= 0x2000_0000_0000_0000) by (nonlinear_arith)
            requires
                ax == if dx >= 0 {
                    dx as int
                } else {
                    -(dx as int)
                },
                -0x2000_0000_0000_0000 <= dx <= 0x2000_0000_0000_0000,
        ;
        assert(ay * ay == dy * dy && ay <= 0x2000_0000_0000_0000) by (nonlinear_arith)
            requires
                ay == if dy >= 0 {
                    dy as int
                } else {
                    -(dy as int)
                },
                -0x2000_0000_0000_0000 <= dy <= 0x2000_0000_0000_0000,
        ;
        assert(ax * ax <= 0x2000_0000_0000_0000 * 0x2000_0000_0000_0000) by (nonlinear_arith)
            requires
                0 <= ax <= 0x2000_0000_0000_0000,
        ;
        assert(ay * ay <= 0x2000_0000_0000_0000 * 0x2000_0000_0000_0000) by (nonlinear_arith)
            requires
                0 <= ay <= 0x2000_0000_0000_0000,
        ;
    }
    (ax as u128) * (ax as u128) + (ay as u128) * (ay as u128)
}


/// Geometry-delta law: if the element's rectangle is the same at
/// immediate-update time and at effect time and its transform-origin is
/// well formed, the effect step starts no animation.
pub proof fn lemma_unmoved_element_not_animated(
    pre: FlipAnimation,
    env: ElementSnapshot,
    post: FlipAnimation,
    cmds: Seq<Command>,
)
    requires
        flip_effect_post(pre, env, post, cmds),
        pre.wf(),
        env.rect == pre.last_rect,
        parse_origin_spec(env.transform_origin@) is Some,
    ensures
        forall|i: int| 0 <= i < cmds.len() ==> !(#[trigger] cmds[i] is StartAnimation),
        post.handle is None,
{
    if env.rect.width == 0 || env.rect.height == 0 {
    } else {
        let (ox, oy) = parse_origin_spec(env.transform_origin@)->0;
        crate::geometry::lemma_identical_axis_no_travel(pre.last_rect.left as int,
            pre.last_rect.width as int, ox);
        crate::geometry::lemma_identical_axis_no_travel(pre.last_rect.top as int,
            pre.last_rect.height as int, oy);
    }
}

} // verus!

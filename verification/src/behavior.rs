//! One behavior, whichever concrete kind it is.
//!
//! Behaviors form a closed union: each variant owns its state, and the
//! union gives the composer and the aggregator one uniform surface — an
//! interest table, an `enabled` flag, a per-kind delay, and one `step`
//! that turns an event and a snapshot into commands.

use vstd::prelude::*;

use crate::classes_in::{in_step, InAnimation};
use crate::command::Command;
use crate::events::{EventKind, Interest};
use crate::flip::{flip_step, FlipAnimation};
use crate::resize::{resize_step, ResizeAnimation};
use crate::snapshot::ElementSnapshot;
use crate::trackable::{spec_track, Trackable};
use crate::zombie::{cleanup_post, zombie_step, ZombieAnimation};
use crate::zoom::{zoom_step, In as ZoomIn};

verus! {

/// A behavior whose reactions are given as data: it opts into the
/// declared events and records every delivery.  This is the open end of
/// the taxonomy, standing in for user-defined behaviors.
#[derive(Clone, PartialEq, Eq, Debug)]
pub struct Scripted {
    pub interest: Interest,
    pub enabled: bool,
    pub enter_delay_ms: u64,
    pub effect_delay_ms: u64,
    pub trackable: Trackable,
    /// Every event delivered to this behavior, in delivery order.
    pub log: Vec<EventKind>,
}

impl Scripted {
    /// A behavior interested in the given events, enabled, without
    /// delays, with an empty delivery log.
    pub fn new(interest: Interest) -> (r: Scripted)
        ensures
            r.interest == interest,
            r.enabled,
            r.enter_delay_ms == 0,
            r.effect_delay_ms == 0,
            r.trackable.count == 0,
            r.log@ == Seq::<EventKind>::empty(),
    {
        Scripted {
            interest,
            enabled: true,
            enter_delay_ms: 0,
            effect_delay_ms: 0,
            trackable: Trackable::new(),
            log: Vec::new(),
        }
    }

    pub fn enabled(self, enabled: bool) -> (r: Scripted)
        ensures
            r == (Scripted { enabled, ..self }),
    {
        Scripted { enabled, ..self }
    }

    pub fn enter_delay_ms(self, enter_delay_ms: u64) -> (r: Scripted)
        ensures
            r == (Scripted { enter_delay_ms, ..self }),
    {
        Scripted { enter_delay_ms, ..self }
    }

    pub fn effect_delay_ms(self, effect_delay_ms: u64) -> (r: Scripted)
        ensures
            r == (Scripted { effect_delay_ms, ..self }),
    {
        Scripted { effect_delay_ms, ..self }
    }
}

/// The scripted behavior's reaction to any event: append it to the log.
pub open spec fn scripted_step(
    pre: Scripted,
    kind: EventKind,
    post: Scripted,
    cmds: Seq<Command>,
) -> bool {
    &&& post == (Scripted { log: post.log, ..pre })
    &&& post.log@ == pre.log@.push(kind)
    &&& cmds == Seq::<Command>::empty()
}

/// One behavior of any concrete kind.
#[derive(Clone, PartialEq, Eq, Debug)]
pub enum Behavior {
    Scripted(Scripted),
    Flip(FlipAnimation),
    Resize(ResizeAnimation),
    ClassesIn(InAnimation),
    ZoomIn(ZoomIn),
    Zombie(ZombieAnimation),
}

/// An interest table with nothing opted in.
pub open spec fn interest_none() -> Interest {
    Interest {
        before_enter: false,
        enter: false,
        immediate_effect: false,
        effect: false,
        mutation: false,
        parent_mutation: false,
        enter_animations_finished: false,
        mutation_animations_finished: false,
        parent_mutation_animations_finished: false,
        cleanup: false,
    }
}

/// The events a behavior opted into, fixed for its lifetime.
pub open spec fn spec_interest(b: Behavior) -> Interest {
    match b {
        Behavior::Scripted(s) => s.interest,
        Behavior::Flip(_) => Interest {
            immediate_effect: true,
            effect: true,
            ..interest_none()
        },
        Behavior::Resize(_) => Interest {
            immediate_effect: true,
            effect: true,
            ..interest_none()
        },
        Behavior::ClassesIn(_) => Interest { before_enter: true, enter: true, ..interest_none() },
        Behavior::ZoomIn(_) => Interest { before_enter: true, ..interest_none() },
        Behavior::Zombie(_) => Interest {
            enter: true,
            mutation: true,
            parent_mutation: true,
            enter_animations_finished: true,
            mutation_animations_finished: true,
            parent_mutation_animations_finished: true,
            cleanup: true,
            ..interest_none()
        },
    }
}

/// Whether a behavior is currently enabled; re-read on every firing,
/// never cached.
pub open spec fn spec_enabled(b: Behavior) -> bool {
    match b {
        Behavior::Scripted(s) => s.enabled,
        Behavior::Flip(f) => f.enabled,
        Behavior::Resize(r) => r.enabled,
        Behavior::ClassesIn(a) => a.enabled,
        Behavior::ZoomIn(z) => z.enabled,
        Behavior::Zombie(z) => z.enabled,
    }
}

/// The delay a behavior declares for a delay-schedulable event kind.
pub open spec fn spec_delay(b: Behavior, kind: EventKind) -> u64 {
    match kind {
        EventKind::Enter => match b {
            Behavior::Scripted(s) => s.enter_delay_ms,
            Behavior::ClassesIn(a) => a.delay_ms,
            _ => 0,
        },
        EventKind::Effect => match b {
            Behavior::Scripted(s) => s.effect_delay_ms,
            Behavior::Flip(f) => f.delay_ms,
            Behavior::Resize(r) => r.delay_ms,
            _ => 0,
        },
        _ => 0,
    }
}

/// The geometry a behavior carries is within the engine's bounds.
pub open spec fn spec_wf(b: Behavior) -> bool {
    match b {
        Behavior::Flip(f) => f.wf(),
        Behavior::Resize(r) => r.wf(),
        Behavior::Zombie(z) => z.wf(),
        _ => true,
    }
}

/// One behavior's reaction to one delivered event: how its state moves
/// and which commands it emits.
pub open spec fn step_rel(
    pre: Behavior,
    kind: EventKind,
    env: ElementSnapshot,
    post: Behavior,
    cmds: Seq<Command>,
) -> bool {
    match pre {
        Behavior::Scripted(s) => post matches Behavior::Scripted(p) && scripted_step(s, kind, p,
            cmds),
        Behavior::Flip(f) => post matches Behavior::Flip(p) && flip_step(f, kind, env, p, cmds),
        Behavior::Resize(r) => post matches Behavior::Resize(p) && resize_step(r, kind, env, p,
            cmds),
        Behavior::ClassesIn(a) => post matches Behavior::ClassesIn(p) && in_step(a, kind, env, p,
            cmds),
        Behavior::ZoomIn(z) => post matches Behavior::ZoomIn(p) && zoom_step(z, kind, p, cmds),
        Behavior::Zombie(z) => post matches Behavior::Zombie(p) && zombie_step(z, kind, env, p,
            cmds),
    }
}

/// A behavior after one dependency declaration: the geometry behaviors
/// and the scripted behavior bump their tracking handle, the rest are
/// untouched.
pub open spec fn spec_tracked(b: Behavior) -> Behavior {
    match b {
        Behavior::Scripted(s) => Behavior::Scripted(
            Scripted { trackable: spec_track(s.trackable), ..s },
        ),
        Behavior::Flip(f) => Behavior::Flip(
            FlipAnimation { trackable: spec_track(f.trackable), ..f },
        ),
        Behavior::Resize(r) => Behavior::Resize(
            ResizeAnimation { trackable: spec_track(r.trackable), ..r },
        ),
        _ => b,
    }
}

impl Behavior {
    /// The events this behavior opted into.
    pub fn interest(&self) -> (r: Interest)
        ensures
            r == spec_interest(*self),
    {
        match self {
            Behavior::Scripted(s) => s.interest,
            Behavior::Flip(_) => Interest {
                immediate_effect: true,
                effect: true,
                ..Interest::none()
            },
            Behavior::Resize(_) => Interest {
                immediate_effect: true,
                effect: true,
                ..Interest::none()
            },
            Behavior::ClassesIn(_) => Interest {
                before_enter: true,
                enter: true,
                ..Interest::none()
            },
            Behavior::ZoomIn(_) => Interest { before_enter: true, ..Interest::none() },
            Behavior::Zombie(_) => Interest {
                enter: true,
                mutation: true,
                parent_mutation: true,
                enter_animations_finished: true,
                mutation_animations_finished: true,
                parent_mutation_animations_finished: true,
                cleanup: true,
                ..Interest::none()
            },
        }
    }

    /// Whether this behavior opted into the given event kind.
    pub fn listening(&self, kind: EventKind) -> (r: bool)
        ensures
            r == spec_interest(*self).spec_listens(kind),
    {
        self.interest().listens(kind)
    }

    /// Whether this behavior is currently enabled.
    pub fn enabled(&self) -> (r: bool)
        ensures
            r == spec_enabled(*self),
    {
        match self {
            Behavior::Scripted(s) => s.enabled,
            Behavior::Flip(f) => f.enabled,
            Behavior::Resize(r) => r.enabled,
            Behavior::ClassesIn(a) => a.enabled,
            Behavior::ZoomIn(z) => z.enabled,
            Behavior::Zombie(z) => z.enabled,
        }
    }

    /// The delay this behavior declares for a delay-schedulable kind.
    pub fn delay_of(&self, kind: EventKind) -> (r: u64)
        ensures
            r == spec_delay(*self, kind),
    {
        match kind {
            EventKind::Enter => match self {
                Behavior::Scripted(s) => s.enter_delay_ms,
                Behavior::ClassesIn(a) => a.delay_ms,
                _ => 0,
            },
            EventKind::Effect => match self {
                Behavior::Scripted(s) => s.effect_delay_ms,
                Behavior::Flip(f) => f.delay_ms,
                Behavior::Resize(r) => r.delay_ms,
                _ => 0,
            },
            _ => 0,
        }
    }

    /// Declares the reactive dependency this behavior watches, if any.
    pub fn track(&mut self)
        ensures
            *final(self) == spec_tracked(*old(self)),
    {
        match self {
            Behavior::Scripted(s) => s.trackable.track(),
            Behavior::Flip(f) => f.track(),
            Behavior::Resize(r) => r.track(),
            _ => {},
        }
    }

    /// Checks [`spec_wf`].
    pub fn check_wf(&self) -> (r: bool)
        ensures
            r == spec_wf(*self),
    {
        match self {
            Behavior::Flip(f) => f.last_rect.check_wf(),
            Behavior::Resize(r) => r.last_rect.check_wf(),
            Behavior::Zombie(z) => z.last_rect.check_wf(),
            _ => true,
        }
    }

    /// Delivers one event: the behavior reacts according to its kind and
    /// hands back the commands it wants performed.
    pub fn step(&mut self, kind: EventKind, element: &ElementSnapshot) -> (cmds: Vec<Command>)
        requires
            spec_wf(*old(self)),
            element.wf(),
        ensures
            step_rel(*old(self), kind, *element, *final(self), cmds@),
    {
        match self {
            Behavior::Scripted(s) => {
                s.log.push(kind);
                Vec::new()
            },
            Behavior::Flip(f) => match kind {
                EventKind::ImmediateEffect => {
                    f.on_immediate_effect(element);
                    Vec::new()
                },
                EventKind::Effect => f.on_effect(element),
                _ => Vec::new(),
            },
            Behavior::Resize(r) => match kind {
                EventKind::ImmediateEffect => {
                    r.on_immediate_effect(element);
                    Vec::new()
                },
                EventKind::Effect => r.on_effect(element),
                _ => Vec::new(),
            },
            Behavior::ClassesIn(a) => match kind {
                EventKind::BeforeEnter => a.on_before_enter(element),
                EventKind::Enter => a.on_enter(element),
                _ => Vec::new(),
            },
            Behavior::ZoomIn(z) => match kind {
                EventKind::BeforeEnter => z.on_before_enter(),
                _ => Vec::new(),
            },
            Behavior::Zombie(z) => match kind {
                EventKind::Enter | EventKind::Mutation | EventKind::ParentMutation
                    | EventKind::EnterAnimationsFinished | EventKind::MutationAnimationsFinished
                    | EventKind::ParentMutationAnimationsFinished => {
                    z.record(element);
                    Vec::new()
                },
                EventKind::Cleanup => {
                    let (core, r) = z.on_cleanup(element);
                    let ghost core_seq = core@;
                    let ghost res = r;
                    let mut cmds = core;
                    match r {
                        Ok(_) => {},
                        Err(e) => {
                            cmds.push(Command::LogError(e));
                        },
                    }
                    proof {
                        assert(cleanup_post(
                            match *old(self) {
                                Behavior::Zombie(z0) => z0,
                                _ => arbitrary(),
                            },
                            *element,
                            core_seq,
                            match *final(self) {
                                Behavior::Zombie(z1) => z1,
                                _ => arbitrary(),
                            },
                            res,
                        ));
                        if res is Err {
                            assert(cmds@ =~= core_seq + seq![
                                Command::LogError(res->Err_0),
                            ]);
                        } else {
                            assert(cmds@ =~= core_seq + Seq::<Command>::empty());
                        }
                    }
                    cmds
                },
                _ => Vec::new(),
            },
        }
    }
}

impl Interest {
    /// An interest table with nothing opted in.
    pub fn none() -> (r: Interest)
        ensures
            r == interest_none(),
    {
        Interest {
            before_enter: false,
            enter: false,
            immediate_effect: false,
            effect: false,
            mutation: false,
            parent_mutation: false,
            enter_animations_finished: false,
            mutation_animations_finished: false,
            parent_mutation_animations_finished: false,
            cleanup: false,
        }
    }
}


/// One guarded delivery through a listener trait: if the inputs are
/// within the engine's bounds the event is delivered, otherwise nothing
/// happens.
fn guarded_step(b: &mut Behavior, kind: EventKind, element: &ElementSnapshot) -> (cmds: Vec<
    Command,
>)
    ensures
        spec_wf(*old(b)) && element.wf() ==> step_rel(*old(b), kind, *element, *final(b), cmds@),
        !(spec_wf(*old(b)) && element.wf()) ==> *final(b) == *old(b) && cmds@ == Seq::<
            Command,
        >::empty(),
{
    if b.check_wf() && element.check_wf() {
        b.step(kind, element)
    } else {
        Vec::new()
    }
}

impl crate::listeners::BeforeEnter for Behavior {
    fn listening_for_before_enter(&self) -> (r: bool)
        ensures
            r == spec_interest(*self).before_enter,
    {
        self.interest().before_enter
    }

    fn on_before_enter(&mut self, element: &ElementSnapshot) -> (cmds: Vec<Command>)
        ensures
            spec_wf(*old(self)) && element.wf() ==> step_rel(*old(self), EventKind::BeforeEnter,
                *element, *final(self), cmds@),
    {
        guarded_step(self, EventKind::BeforeEnter, element)
    }
}

impl crate::listeners::Enter for Behavior {
    fn listening_for_enter(&self) -> (r: bool)
        ensures
            r == spec_interest(*self).enter,
    {
        self.interest().enter
    }

    fn enter_delay(&self) -> (r: u64)
        ensures
            r == spec_delay(*self, EventKind::Enter),
    {
        self.delay_of(EventKind::Enter)
    }

    fn on_enter(&mut self, element: &ElementSnapshot) -> (cmds: Vec<Command>)
        ensures
            spec_wf(*old(self)) && element.wf() ==> step_rel(*old(self), EventKind::Enter,
                *element, *final(self), cmds@),
    {
        guarded_step(self, EventKind::Enter, element)
    }
}

impl crate::listeners::ImmediateEffect for Behavior {
    fn listening_for_immediate_effect(&self) -> (r: bool)
        ensures
            r == spec_interest(*self).immediate_effect,
    {
        self.interest().immediate_effect
    }

    fn on_immediate_effect(&mut self, element: &ElementSnapshot) -> (cmds: Vec<Command>)
        ensures
            spec_wf(*old(self)) && element.wf() ==> step_rel(*old(self),
                EventKind::ImmediateEffect, *element, *final(self), cmds@),
    {
        guarded_step(self, EventKind::ImmediateEffect, element)
    }
}

impl crate::listeners::Effect for Behavior {
    fn listening_for_effect(&self) -> (r: bool)
        ensures
            r == spec_interest(*self).effect,
    {
        self.interest().effect
    }

    fn effect_delay(&self) -> (r: u64)
        ensures
            r == spec_delay(*self, EventKind::Effect),
    {
        self.delay_of(EventKind::Effect)
    }

    fn on_effect(&mut self, element: &ElementSnapshot) -> (cmds: Vec<Command>)
        ensures
            spec_wf(*old(self)) && element.wf() ==> step_rel(*old(self), EventKind::Effect,
                *element, *final(self), cmds@),
    {
        guarded_step(self, EventKind::Effect, element)
    }
}

impl crate::listeners::Mutation for Behavior {
    fn listening_for_mutation(&self) -> (r: bool)
        ensures
            r == spec_interest(*self).mutation,
    {
        self.interest().mutation
    }

    fn on_mutation(&mut self, element: &ElementSnapshot) -> (cmds: Vec<Command>)
        ensures
            spec_wf(*old(self)) && element.wf() ==> step_rel(*old(self), EventKind::Mutation,
                *element, *final(self), cmds@),
    {
        guarded_step(self, EventKind::Mutation, element)
    }
}

impl crate::listeners::ParentMutation for Behavior {
    fn listening_for_parent_mutation(&self) -> (r: bool)
        ensures
            r == spec_interest(*self).parent_mutation,
    {
        self.interest().parent_mutation
    }

    fn on_parent_mutation(&mut self, element: &ElementSnapshot) -> (cmds: Vec<Command>)
        ensures
            spec_wf(*old(self)) && element.wf() ==> step_rel(*old(self),
                EventKind::ParentMutation, *element, *final(self), cmds@),
    {
        guarded_step(self, EventKind::ParentMutation, element)
    }
}

impl crate::listeners::EnterAnimationsFinished for Behavior {
    fn listening_for_enter_animations_finished(&self) -> (r: bool)
        ensures
            r == spec_interest(*self).enter_animations_finished,
    {
        self.interest().enter_animations_finished
    }

    fn on_enter_animations_finished(&mut self, element: &ElementSnapshot) -> (cmds: Vec<Command>)
        ensures
            spec_wf(*old(self)) && element.wf() ==> step_rel(*old(self),
                EventKind::EnterAnimationsFinished, *element, *final(self), cmds@),
    {
        guarded_step(self, EventKind::EnterAnimationsFinished, element)
    }
}

impl crate::listeners::MutationAnimationsFinished for Behavior {
    fn listening_for_mutation_animations_finished(&self) -> (r: bool)
        ensures
            r == spec_interest(*self).mutation_animations_finished,
    {
        self.interest().mutation_animations_finished
    }

    fn on_mutation_animations_finished(&mut self, element: &ElementSnapshot) -> (cmds: Vec<
        Command,
    >)
        ensures
            spec_wf(*old(self)) && element.wf() ==> step_rel(*old(self),
                EventKind::MutationAnimationsFinished, *element, *final(self), cmds@),
    {
        guarded_step(self, EventKind::MutationAnimationsFinished, element)
    }
}

impl crate::listeners::ParentMutationAnimationsFinished for Behavior {
    fn listening_for_parent_mutation_animations_finished(&self) -> (r: bool)
        ensures
            r == spec_interest(*self).parent_mutation_animations_finished,
    {
        self.interest().parent_mutation_animations_finished
    }

    fn on_parent_mutation_animations_finished(&mut self, element: &ElementSnapshot) -> (cmds: Vec<
        Command,
    >)
        ensures
            spec_wf(*old(self)) && element.wf() ==> step_rel(*old(self),
                EventKind::ParentMutationAnimationsFinished, *element, *final(self), cmds@),
    {
        guarded_step(self, EventKind::ParentMutationAnimationsFinished, element)
    }
}

impl crate::listeners::Cleanup for Behavior {
    fn listening_for_cleanup(&self) -> (r: bool)
        ensures
            r == spec_interest(*self).cleanup,
    {
        self.interest().cleanup
    }

    fn on_cleanup(&mut self, element: &ElementSnapshot) -> (cmds: Vec<Command>)
        ensures
            spec_wf(*old(self)) && element.wf() ==> step_rel(*old(self), EventKind::Cleanup,
                *element, *final(self), cmds@),
    {
        guarded_step(self, EventKind::Cleanup, element)
    }
}

} // verus!

//! The composer: wiring one behavior set to one element's lifecycle.
//!
//! At composition time the before-entry hook fires synchronously if
//! anything wants it, and a subscription is requested for exactly the
//! event kinds the behavior set opted into — never for an uninterested
//! kind.  Afterwards the host reports each fired source back through the
//! delivery methods here, which apply the first-notification gates and
//! the liveness checks before anything reaches a behavior.

use vstd::prelude::*;

use crate::aggregated::{agg_listens, dispatch_post, scheduled_post, Aggregated};
use crate::behavior::Behavior;
use crate::command::Command;
use crate::events::EventKind;
use crate::initial::Initial;
use crate::snapshot::ElementSnapshot;

verus! {

/// Requests a subscription for a kind if anything opted into it.
fn push_if(subs: &mut Vec<EventKind>, listens: bool, kind: EventKind)
    ensures
        listens ==> final(subs)@ == old(subs)@.push(kind),
        !listens ==> final(subs)@ == old(subs)@,
        forall|k: EventKind| old(subs)@.contains(k) ==> final(subs)@.contains(k),
        listens ==> final(subs)@.contains(kind),
        forall|j: int|
            0 <= j < final(subs)@.len() ==> old(subs)@.contains(#[trigger] final(subs)@[j]) || (
            listens && final(subs)@[j] == kind),
{
    if listens {
        let ghost pre = subs@;
        subs.push(kind);
        proof {
            assert(subs@.last() == kind);
            assert forall|k: EventKind| pre.contains(k) implies subs@.contains(k) by {
                let i = choose|i: int| 0 <= i < pre.len() && pre[i] == k;
                assert(subs@[i] == k);
            }
            assert forall|j: int|
                0 <= j < subs@.len() implies pre.contains(#[trigger] subs@[j]) || subs@[j]
                == kind by {
                if j < pre.len() {
                    assert(pre[j] == subs@[j]);
                }
            }
        }
    }
}

/// One behavior set wired to one element.
#[derive(Clone, PartialEq, Eq, Debug)]
pub struct Composer {
    pub animation: Aggregated,
    /// Swallows the setup run of the immediate reactive hook.
    pub immediate_gate: Initial,
    /// Swallows the setup run of the deferred reactive hook.
    pub effect_gate: Initial,
    /// Swallows the notification delivered on starting self observation.
    pub mutation_gate: Initial,
    /// The same, for the parent observation.
    pub parent_mutation_gate: Initial,
}

impl Composer {
    pub open spec fn wf(self) -> bool {
        self.animation.wf()
    }

    /// Wraps a behavior set, with every first-notification gate fresh.
    pub fn new(animation: Aggregated) -> (r: Composer)
        requires
            animation.wf(),
        ensures
            r.animation == animation,
            r.wf(),
            r.immediate_gate.fresh,
            r.effect_gate.fresh,
            r.mutation_gate.fresh,
            r.parent_mutation_gate.fresh,
    {
        Composer {
            animation,
            immediate_gate: Initial::new(),
            effect_gate: Initial::new(),
            mutation_gate: Initial::new(),
            parent_mutation_gate: Initial::new(),
        }
    }

    /// Runs the composition step: fires the before-entry hook
    /// synchronously if anything opted in and is enabled, and returns
    /// the event kinds to subscribe to — exactly the opted-in ones, so
    /// no underlying source is ever registered for an uninterested
    /// kind.
    pub fn compose(&mut self, element: &ElementSnapshot) -> (r: (Vec<EventKind>, Vec<Command>))
        requires
            old(self).wf(),
            element.wf(),
        ensures
            final(self).wf(),
            forall|j: int|
                0 <= j < r.0@.len() ==> agg_listens(old(self).animation.children@,
                    #[trigger] r.0@[j]),
            forall|j: int| 0 <= j < r.0@.len() ==> (#[trigger] r.0@[j]).subscribable(),
            forall|k: EventKind|
                (#[trigger] k.subscribable() && agg_listens(old(self).animation.children@, k))
                    ==> r.0@.contains(k),
            ({
                if agg_listens(old(self).animation.children@, EventKind::BeforeEnter)
                    && crate::aggregated::agg_enabled(old(self).animation.children@) {
                    dispatch_post(old(self).animation.children@, EventKind::BeforeEnter, *element,
                        final(self).animation.children@, r.1@)
                } else {
                    final(self).animation == old(self).animation && r.1@ == Seq::<
                        Command,
                    >::empty()
                }
            }),
    {
        let subs: Vec<EventKind> = self.build_subscriptions();
        let mut cmds: Vec<Command> = Vec::new();
        if self.animation.listening(EventKind::BeforeEnter) && self.animation.enabled() {
            cmds = self.animation.dispatch(EventKind::BeforeEnter, element);
        }
        (subs, cmds)
    }

    /// Collects one subscription per subscribable kind anything opted
    /// into, in the fixed wiring order.
    #[verifier::rlimit(60)]
    fn build_subscriptions(&self) -> (subs: Vec<EventKind>)
        requires
            self.wf(),
        ensures
            forall|j: int|
                0 <= j < subs@.len() ==> agg_listens(self.animation.children@,
                    #[trigger] subs@[j]),
            forall|j: int| 0 <= j < subs@.len() ==> (#[trigger] subs@[j]).subscribable(),
            forall|k: EventKind|
                (#[trigger] k.subscribable() && agg_listens(self.animation.children@, k))
                    ==> subs@.contains(k),
    {
        let ghost pre = self.animation.children@;
        let mut subs: Vec<EventKind> = Vec::new();
        let listening_enter = self.animation.listening(EventKind::Enter);
        push_if(&mut subs, listening_enter, EventKind::Enter);
        let listening_immediate = self.animation.listening(EventKind::ImmediateEffect);
        push_if(&mut subs, listening_immediate, EventKind::ImmediateEffect);
        let listening_effect = self.animation.listening(EventKind::Effect);
        push_if(&mut subs, listening_effect, EventKind::Effect);
        let listening_mutation = self.animation.listening(EventKind::Mutation);
        push_if(&mut subs, listening_mutation, EventKind::Mutation);
        let listening_parent = self.animation.listening(EventKind::ParentMutation);
        push_if(&mut subs, listening_parent, EventKind::ParentMutation);
        let listening_enter_af = self.animation.listening(EventKind::EnterAnimationsFinished);
        push_if(&mut subs, listening_enter_af, EventKind::EnterAnimationsFinished);
        let listening_mutation_af = self.animation.listening(
            EventKind::MutationAnimationsFinished,
        );
        push_if(&mut subs, listening_mutation_af, EventKind::MutationAnimationsFinished);
        let listening_parent_af = self.animation.listening(
            EventKind::ParentMutationAnimationsFinished,
        );
        push_if(&mut subs, listening_parent_af, EventKind::ParentMutationAnimationsFinished);
        let listening_cleanup = self.animation.listening(EventKind::Cleanup);
        push_if(&mut subs, listening_cleanup, EventKind::Cleanup);
        proof {
            assert forall|k: EventKind|
                k.subscribable() && agg_listens(pre, k) implies subs@.contains(k) by {
                assert(k == EventKind::Enter || k == EventKind::ImmediateEffect || k
                    == EventKind::Effect || k == EventKind::Mutation || k
                    == EventKind::ParentMutation || k == EventKind::EnterAnimationsFinished || k
                    == EventKind::MutationAnimationsFinished || k
                    == EventKind::ParentMutationAnimationsFinished || k == EventKind::Cleanup);
            }
        }
        subs
    }

    /// The element was inserted and a rendering frame has passed:
    /// routes the entry event through the per-child scheduler.
    pub fn enter(&mut self, element: &ElementSnapshot) -> (cmds: Vec<Command>)
        requires
            old(self).wf(),
            element.wf(),
        ensures
            final(self).wf(),
            scheduled_post(old(self).animation.children@, EventKind::Enter, *element,
                final(self).animation.children@, cmds@),
    {
        self.animation.dispatch_scheduled(EventKind::Enter, element)
    }

    /// A reactive recomputation is being applied: declares the tracked
    /// dependencies, then — except on the setup run — delivers the
    /// immediate update synchronously, before the host has applied its
    /// changes, whether or not the element is still live: this is the
    /// bookkeeping step other behaviors rely on.
    pub fn immediate_update(&mut self, element: &ElementSnapshot) -> (cmds: Vec<Command>)
        requires
            old(self).wf(),
            element.wf(),
        ensures
            final(self).wf(),
            !final(self).immediate_gate.fresh,
            ({
                let tracked_children = spec_tracked_children(old(self).animation.children@);
                if old(self).immediate_gate.fresh {
                    final(self).animation.children@ == tracked_children && cmds@ == Seq::<
                        Command,
                    >::empty()
                } else {
                    dispatch_post(tracked_children, EventKind::ImmediateEffect, *element,
                        final(self).animation.children@, cmds@)
                }
            }),
    {
        let ghost pre = self.animation.children@;
        self.animation.track();
        proof {
            assert(self.animation.children@ =~= spec_tracked_children(pre));
        }
        if self.immediate_gate.get() {
            return Vec::new();
        }
        self.animation.dispatch(EventKind::ImmediateEffect, element)
    }

    /// The same recomputation, on its deferred hook: declares the
    /// tracked dependencies, and — except on the setup run — asks the
    /// host to come back one tick later, once its changes are applied.
    pub fn update_pass(&mut self) -> (cmds: Vec<Command>)
        requires
            old(self).wf(),
        ensures
            final(self).wf(),
            !final(self).effect_gate.fresh,
            final(self).animation.children@ == spec_tracked_children(
                old(self).animation.children@,
            ),
            old(self).effect_gate.fresh ==> cmds@ == Seq::<Command>::empty(),
            !old(self).effect_gate.fresh ==> cmds@ == seq![Command::AwaitUpdateTick],
    {
        let ghost pre = self.animation.children@;
        self.animation.track();
        proof {
            assert(self.animation.children@ =~= spec_tracked_children(pre));
        }
        if self.effect_gate.get() {
            return Vec::new();
        }
        let mut cmds: Vec<Command> = Vec::new();
        cmds.push(Command::AwaitUpdateTick);
        cmds
    }

    /// One tick after [`Composer::update_pass`] asked for it: routes the
    /// update through the per-child scheduler, each child with its own
    /// delay.
    pub fn update_tick(&mut self, element: &ElementSnapshot) -> (cmds: Vec<Command>)
        requires
            old(self).wf(),
            element.wf(),
        ensures
            final(self).wf(),
            scheduled_post(old(self).animation.children@, EventKind::Effect, *element,
                final(self).animation.children@, cmds@),
    {
        self.animation.dispatch_scheduled(EventKind::Effect, element)
    }

    /// The element's own subtree changed: the very first notification
    /// after subscribing is an artifact of starting observation and is
    /// swallowed; afterwards the event is delivered when the liveness
    /// check passes.
    pub fn mutation(&mut self, element: &ElementSnapshot) -> (cmds: Vec<Command>)
        requires
            old(self).wf(),
            element.wf(),
        ensures
            final(self).wf(),
            !final(self).mutation_gate.fresh,
            ({
                if !old(self).mutation_gate.fresh && crate::aggregated::agg_enabled(
                    old(self).animation.children@,
                ) && element.connected {
                    dispatch_post(old(self).animation.children@, EventKind::Mutation, *element,
                        final(self).animation.children@, cmds@)
                } else {
                    final(self).animation == old(self).animation && cmds@ == Seq::<
                        Command,
                    >::empty()
                }
            }),
    {
        if self.mutation_gate.get() {
            return Vec::new();
        }
        if !(self.animation.enabled() && element.connected) {
            return Vec::new();
        }
        self.animation.dispatch(EventKind::Mutation, element)
    }

    /// The parent element's subtree changed; gated like
    /// [`Composer::mutation`], with the parent's own attachment in the
    /// liveness check.
    pub fn parent_mutation(&mut self, element: &ElementSnapshot) -> (cmds: Vec<Command>)
        requires
            old(self).wf(),
            element.wf(),
        ensures
            final(self).wf(),
            !final(self).parent_mutation_gate.fresh,
            ({
                if !old(self).parent_mutation_gate.fresh && crate::aggregated::agg_enabled(
                    old(self).animation.children@,
                ) && element.parent_connected {
                    dispatch_post(old(self).animation.children@, EventKind::ParentMutation,
                        *element, final(self).animation.children@, cmds@)
                } else {
                    final(self).animation == old(self).animation && cmds@ == Seq::<
                        Command,
                    >::empty()
                }
            }),
    {
        if self.parent_mutation_gate.get() {
            return Vec::new();
        }
        if !(self.animation.enabled() && element.parent_connected) {
            return Vec::new();
        }
        self.animation.dispatch(EventKind::ParentMutation, element)
    }

    /// All native animations following one of the three earlier events
    /// finished; delivered when the liveness check passes.
    pub fn animations_finished(&mut self, kind: EventKind, element: &ElementSnapshot) -> (cmds:
        Vec<Command>)
        requires
            old(self).wf(),
            element.wf(),
            kind == EventKind::EnterAnimationsFinished || kind
                == EventKind::MutationAnimationsFinished || kind
                == EventKind::ParentMutationAnimationsFinished,
        ensures
            final(self).wf(),
            ({
                if crate::aggregated::agg_enabled(old(self).animation.children@)
                    && element.connected {
                    dispatch_post(old(self).animation.children@, kind, *element,
                        final(self).animation.children@, cmds@)
                } else {
                    final(self).animation == old(self).animation && cmds@ == Seq::<
                        Command,
                    >::empty()
                }
            }),
    {
        if !(self.animation.enabled() && element.connected) {
            return Vec::new();
        }
        self.animation.dispatch(kind, element)
    }

    /// The host is discarding the element's bookkeeping: the last hook
    /// to fire, delivered unconditionally — a continuation must run even
    /// when the element is about to disappear.
    pub fn cleanup(&mut self, element: &ElementSnapshot) -> (cmds: Vec<Command>)
        requires
            old(self).wf(),
            element.wf(),
        ensures
            final(self).wf(),
            dispatch_post(old(self).animation.children@, EventKind::Cleanup, *element,
                final(self).animation.children@, cmds@),
    {
        self.animation.dispatch(EventKind::Cleanup, element)
    }

    /// A deferred delivery from the per-child scheduler came due:
    /// liveness is re-evaluated now, and a child that is no longer live
    /// is silently dropped, never retried.
    pub fn deliver_delayed(&mut self, child: usize, kind: EventKind, element: &ElementSnapshot)
        -> (cmds: Vec<Command>)
        requires
            old(self).wf(),
            element.wf(),
            child < old(self).animation.children@.len(),
        ensures
            final(self).wf(),
            final(self).animation.children@.len() == old(self).animation.children@.len(),
            forall|i: int|
                0 <= i < old(self).animation.children@.len() && i != child
                    ==> final(self).animation.children@[i] == old(self).animation.children@[i],
            ({
                let b = old(self).animation.children@[child as int];
                let b2 = final(self).animation.children@[child as int];
                if crate::scheduler::spec_live(crate::behavior::spec_enabled(b),
                    element.connected) {
                    crate::behavior::step_rel(b, kind, *element, b2, cmds@)
                } else {
                    b2 == b && cmds@ == Seq::<Command>::empty()
                }
            }),
    {
        self.animation.deliver_delayed(child, kind, element)
    }
}

/// Every child after the render pass declared its dependencies: the
/// children interested in the immediate-update/update pair tracked once.
pub open spec fn spec_tracked_children(cs: Seq<Behavior>) -> Seq<Behavior> {
    Seq::new(
        cs.len(),
        |i: int|
            if crate::behavior::spec_interest(cs[i]).immediate_effect
                || crate::behavior::spec_interest(cs[i]).effect {
                crate::behavior::spec_tracked(cs[i])
            } else {
                cs[i]
            },
    )
}

} // verus!

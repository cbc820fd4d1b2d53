//! Merging many behaviors into one.
//!
//! The aggregate is interested in an event exactly when at least one
//! child is; when an event fires it is dispatched, in original child
//! order, to exactly the children that both opted in and are enabled at
//! dispatch time.  Delay-schedulable events go through the scheduler per
//! child, each with its own delay.

use vstd::prelude::*;

use crate::behavior::{
    spec_enabled, spec_interest, spec_tracked, spec_wf, step_rel, Behavior,
};
use crate::command::Command;
use crate::events::{EventKind, Interest};
use crate::scheduler::{run_now_or_after_delay, should_run, Decision, spec_live};
use crate::snapshot::ElementSnapshot;

verus! {

/// A list of behaviors presented as one.
#[derive(Clone, PartialEq, Eq, Debug)]
pub struct Aggregated {
    pub children: Vec<Behavior>,
    /// Each child's interest table, computed once at construction;
    /// interest is immutable for a behavior's lifetime.
    pub interests: Vec<Interest>,
}

/// What one child contributes to a dispatch: a step if it opted in and
/// is enabled right now, nothing otherwise.
pub open spec fn invoked_ok(
    b: Behavior,
    kind: EventKind,
    env: ElementSnapshot,
    b2: Behavior,
    seg: Seq<Command>,
) -> bool {
    if spec_interest(b).spec_listens(kind) && spec_enabled(b) {
        step_rel(b, kind, env, b2, seg)
    } else {
        b2 == b && seg == Seq::<Command>::empty()
    }
}

/// A whole dispatch: per-child segments, concatenated in child order.
pub open spec fn dispatch_segs(
    pre: Seq<Behavior>,
    kind: EventKind,
    env: ElementSnapshot,
    post: Seq<Behavior>,
    cmds: Seq<Command>,
    segs: Seq<Seq<Command>>,
) -> bool {
    &&& post.len() == pre.len()
    &&& segs.len() == pre.len()
    &&& cmds == segs.flatten()
    &&& forall|i: int|
        0 <= i < pre.len() ==> #[trigger] invoked_ok(pre[i], kind, env, post[i], segs[i])
}

/// Dispatching an event invokes the handler on exactly the children
/// that are interested and currently enabled, in original order, and on
/// no others; the commands are the invoked children's commands in that
/// same order.
pub open spec fn dispatch_post(
    pre: Seq<Behavior>,
    kind: EventKind,
    env: ElementSnapshot,
    post: Seq<Behavior>,
    cmds: Seq<Command>,
) -> bool {
    exists|segs: Seq<Seq<Command>>| #[trigger] dispatch_segs(pre, kind, env, post, cmds, segs)
}

/// Whether any behavior in the list opted into the given event kind.
pub open spec fn agg_listens(cs: Seq<Behavior>, kind: EventKind) -> bool {
    exists|i: int| 0 <= i < cs.len() && spec_interest(#[trigger] cs[i]).spec_listens(kind)
}

/// Whether any behavior in the list is currently enabled.
pub open spec fn agg_enabled(cs: Seq<Behavior>) -> bool {
    exists|i: int| 0 <= i < cs.len() && spec_enabled(#[trigger] cs[i])
}

/// A stepped behavior keeps its interest table.
proof fn lemma_step_keeps_interest(
    pre: Behavior,
    kind: EventKind,
    env: ElementSnapshot,
    post: Behavior,
    cmds: Seq<Command>,
)
    requires
        step_rel(pre, kind, env, post, cmds),
    ensures
        spec_interest(post) == spec_interest(pre),
        spec_wf(pre) && env.wf() ==> spec_wf(post),
{
}

impl Aggregated {
    /// The stored interest tables are the children's own, and every
    /// child's geometry is in bounds.
    pub open spec fn wf(self) -> bool {
        &&& self.interests@.len() == self.children@.len()
        &&& forall|i: int|
            0 <= i < self.children@.len() ==> self.interests@[i] == spec_interest(
                #[trigger] self.children@[i],
            )
        &&& forall|i: int| 0 <= i < self.children@.len() ==> spec_wf(#[trigger] self.children@[i])
    }

    /// Combines the given behaviors, computing each child's interest
    /// table once.
    pub fn new(children: Vec<Behavior>) -> (r: Aggregated)
        requires
            forall|i: int| 0 <= i < children@.len() ==> spec_wf(#[trigger] children@[i]),
        ensures
            r.children == children,
            r.wf(),
    {
        let mut interests: Vec<Interest> = Vec::new();
        let mut k: usize = 0;
        while k < children.len()
            invariant
                0 <= k <= children.len(),
                interests@.len() == k,
                forall|i: int|
                    0 <= i < k ==> interests@[i] == spec_interest(#[trigger] children@[i]),
            decreases children.len() - k,
        {
            interests.push(children[k].interest());
            k = k + 1;
        }
        Aggregated { children, interests }
    }

    /// Whether at least one child opted into the given event kind.
    pub fn listening(&self, kind: EventKind) -> (r: bool)
        requires
            self.wf(),
        ensures
            r == agg_listens(self.children@, kind),
    {
        let mut k: usize = 0;
        while k < self.interests.len()
            invariant
                0 <= k <= self.interests.len(),
                self.wf(),
                forall|i: int|
                    0 <= i < k ==> !spec_interest(#[trigger] self.children@[i]).spec_listens(
                        kind,
                    ),
            decreases self.interests.len() - k,
        {
            if self.interests[k].listens(kind) {
                assert(spec_interest(self.children@[k as int]).spec_listens(kind));
                return true;
            }
            k = k + 1;
        }
        false
    }

    /// Whether anything inside the aggregate is still enabled: the
    /// aggregate is alive if any child is.
    pub fn enabled(&self) -> (r: bool)
        ensures
            r == agg_enabled(self.children@),
    {
        let mut k: usize = 0;
        while k < self.children.len()
            invariant
                0 <= k <= self.children.len(),
                forall|i: int| 0 <= i < k ==> !spec_enabled(#[trigger] self.children@[i]),
            decreases self.children.len() - k,
        {
            if self.children[k].enabled() {
                return true;
            }
            k = k + 1;
        }
        false
    }

    /// Delivers one non-delayed event: in child order, each child that
    /// opted in and is enabled right now handles it.
    pub fn dispatch(&mut self, kind: EventKind, element: &ElementSnapshot) -> (cmds: Vec<Command>)
        requires
            old(self).wf(),
            element.wf(),
        ensures
            final(self).wf(),
            final(self).interests == old(self).interests,
            dispatch_post(old(self).children@, kind, *element, final(self).children@, cmds@),
    {
        let ghost pre_children = old(self).children@;
        let mut cmds: Vec<Command> = Vec::new();
        let ghost mut segs: Seq<Seq<Command>> = Seq::empty();
        proof {
            assert(segs.flatten() =~= Seq::<Command>::empty());
        }
        let n: usize = self.children.len();
        let mut k: usize = 0;
        while k < n
            invariant
                0 <= k <= n,
                n == self.children@.len(),
                self.children@.len() == pre_children.len(),
                self.interests == old(self).interests,
                self.wf(),
                element.wf(),
                forall|i: int| k <= i < n ==> self.children@[i] == pre_children[i],
                segs.len() == k,
                cmds@ == segs.flatten(),
                forall|i: int|
                    0 <= i < k ==> #[trigger] invoked_ok(pre_children[i], kind, *element,
                        self.children@[i], segs[i]),
            decreases n - k,
        {
            let ghost pre_child = self.children@[k as int];
            let listens = self.interests[k].listens(kind);
            let enab = self.children[k].enabled();
            if listens && enab {
                let child = &mut self.children[k];
                let mut seg = child.step(kind, element);
                proof {
                    lemma_step_keeps_interest(pre_child, kind, *element,
                        self.children@[k as int], seg@);
                    Seq::lemma_flatten_push(segs, seg@);
                    segs = segs.push(seg@);
                }
                cmds.append(&mut seg);
            } else {
                proof {
                    Seq::lemma_flatten_push(segs, Seq::<Command>::empty());
                    segs = segs.push(Seq::<Command>::empty());
                    assert(cmds@ + Seq::<Command>::empty() =~= cmds@);
                }
            }
            k = k + 1;
        }
        proof {
            assert(dispatch_segs(pre_children, kind, *element, self.children@, cmds@, segs));
        }
        cmds
    }

    /// Declares the reactive dependency of every child that opted into
    /// the immediate-update/update pair, whether or not those events
    /// fire: dependency declaration happens unconditionally on every
    /// render pass.
    pub fn track(&mut self)
        requires
            old(self).wf(),
        ensures
            final(self).wf(),
            final(self).interests == old(self).interests,
            final(self).children@.len() == old(self).children@.len(),
            forall|i: int|
                0 <= i < old(self).children@.len() ==> final(self).children@[i] == (
                if spec_interest(#[trigger] old(self).children@[i]).immediate_effect
                    || spec_interest(old(self).children@[i]).effect {
                    spec_tracked(old(self).children@[i])
                } else {
                    old(self).children@[i]
                }),
    {
        let ghost pre_children = old(self).children@;
        let n: usize = self.children.len();
        let mut k: usize = 0;
        while k < n
            invariant
                0 <= k <= n,
                n == self.children@.len(),
                self.children@.len() == pre_children.len(),
                self.interests == old(self).interests,
                self.wf(),
                forall|i: int| k <= i < n ==> self.children@[i] == pre_children[i],
                forall|i: int|
                    0 <= i < k ==> self.children@[i] == (
                    if spec_interest(#[trigger] pre_children[i]).immediate_effect || spec_interest(
                        pre_children[i],
                    ).effect {
                        spec_tracked(pre_children[i])
                    } else {
                        pre_children[i]
                    }),
            decreases n - k,
        {
            let tracked_child = self.interests[k].immediate_effect || self.interests[k].effect;
            if tracked_child {
                let child = &mut self.children[k];
                child.track();
            }
            k = k + 1;
        }
    }

    /// Routes one delay-schedulable event through the scheduler, child
    /// by child: an interested, enabled child with zero delay fires
    /// inline when the liveness check passes; one with a nonzero delay
    /// is deferred, to be re-checked and delivered through
    /// [`Aggregated::deliver_delayed`].
    pub fn dispatch_scheduled(&mut self, kind: EventKind, element: &ElementSnapshot) -> (cmds: Vec<
        Command,
    >)
        requires
            old(self).wf(),
            element.wf(),
        ensures
            final(self).wf(),
            final(self).interests == old(self).interests,
            scheduled_post(old(self).children@, kind, *element, final(self).children@, cmds@),
    {
        let ghost pre_children = old(self).children@;
        let mut cmds: Vec<Command> = Vec::new();
        let ghost mut segs: Seq<Seq<Command>> = Seq::empty();
        proof {
            assert(segs.flatten() =~= Seq::<Command>::empty());
        }
        let n: usize = self.children.len();
        let mut k: usize = 0;
        while k < n
            invariant
                0 <= k <= n,
                n == self.children@.len(),
                self.children@.len() == pre_children.len(),
                self.interests == old(self).interests,
                self.wf(),
                element.wf(),
                forall|i: int| k <= i < n ==> self.children@[i] == pre_children[i],
                segs.len() == k,
                cmds@ == segs.flatten(),
                forall|i: int|
                    0 <= i < k ==> #[trigger] scheduled_ok(pre_children[i], i, kind, *element,
                        self.children@[i], segs[i]),
            decreases n - k,
        {
            let ghost pre_child = self.children@[k as int];
            let listens = self.interests[k].listens(kind);
            let enab = self.children[k].enabled();
            if listens && enab {
                let delay = self.children[k].delay_of(kind);
                match run_now_or_after_delay(delay, enab, element.connected) {
                    Decision::RunNow => {
                        let child = &mut self.children[k];
                        let mut seg = child.step(kind, element);
                        proof {
                            lemma_step_keeps_interest(pre_child, kind, *element,
                                self.children@[k as int], seg@);
                            Seq::lemma_flatten_push(segs, seg@);
                            segs = segs.push(seg@);
                        }
                        cmds.append(&mut seg);
                    },
                    Decision::Dropped => {
                        proof {
                            Seq::lemma_flatten_push(segs, Seq::<Command>::empty());
                            segs = segs.push(Seq::<Command>::empty());
                            assert(cmds@ + Seq::<Command>::empty() =~= cmds@);
                        }
                    },
                    Decision::Wait(wait_ms) => {
                        let one = Command::ScheduleDelayed { child: k, kind, delay_ms: wait_ms };
                        proof {
                            Seq::lemma_flatten_push(segs, seq![one]);
                            segs = segs.push(seq![one]);
                        }
                        cmds.push(one);
                    },
                }
            } else {
                proof {
                    Seq::lemma_flatten_push(segs, Seq::<Command>::empty());
                    segs = segs.push(Seq::<Command>::empty());
                    assert(cmds@ + Seq::<Command>::empty() =~= cmds@);
                }
            }
            k = k + 1;
        }
        proof {
            assert(scheduled_segs(pre_children, kind, *element, self.children@, cmds@, segs));
        }
        cmds
    }

    /// Delivers a deferred event to one child once its delay has
    /// elapsed: liveness is re-evaluated now, not at schedule time, and
    /// a child that is no longer live is silently dropped.
    pub fn deliver_delayed(&mut self, child: usize, kind: EventKind, element: &ElementSnapshot)
        -> (cmds: Vec<Command>)
        requires
            old(self).wf(),
            element.wf(),
            child < old(self).children@.len(),
        ensures
            final(self).wf(),
            final(self).interests == old(self).interests,
            final(self).children@.len() == old(self).children@.len(),
            forall|i: int|
                0 <= i < old(self).children@.len() && i != child ==> final(self).children@[i]
                    == old(self).children@[i],
            ({
                let b = old(self).children@[child as int];
                let b2 = final(self).children@[child as int];
                if spec_live(spec_enabled(b), element.connected) {
                    step_rel(b, kind, *element, b2, cmds@)
                } else {
                    b2 == b && cmds@ == Seq::<Command>::empty()
                }
            }),
    {
        let ghost pre_child = self.children@[child as int];
        let enab = self.children[child].enabled();
        if should_run(enab, element.connected) {
            let c = &mut self.children[child];
            let cmds = c.step(kind, element);
            proof {
                lemma_step_keeps_interest(pre_child, kind, *element,
                    self.children@[child as int], cmds@);
            }
            cmds
        } else {
            Vec::new()
        }
    }
}

/// What one child contributes to a scheduled dispatch: with zero delay
/// it fires inline exactly when the liveness check passes, and with a
/// nonzero delay a deferred delivery is requested instead.
pub open spec fn scheduled_ok(
    b: Behavior,
    i: int,
    kind: EventKind,
    env: ElementSnapshot,
    b2: Behavior,
    seg: Seq<Command>,
) -> bool {
    if spec_interest(b).spec_listens(kind) && spec_enabled(b) {
        let delay = spec_delay_of(b, kind);
        if delay == 0 {
            if env.connected {
                step_rel(b, kind, env, b2, seg)
            } else {
                b2 == b && seg == Seq::<Command>::empty()
            }
        } else {
            b2 == b && seg == seq![
                Command::ScheduleDelayed { child: i as usize, kind, delay_ms: delay },
            ]
        }
    } else {
        b2 == b && seg == Seq::<Command>::empty()
    }
}

/// The delay a behavior declares for a kind.
pub open spec fn spec_delay_of(b: Behavior, kind: EventKind) -> u64 {
    crate::behavior::spec_delay(b, kind)
}

/// A whole scheduled dispatch, segment by segment.
pub open spec fn scheduled_segs(
    pre: Seq<Behavior>,
    kind: EventKind,
    env: ElementSnapshot,
    post: Seq<Behavior>,
    cmds: Seq<Command>,
    segs: Seq<Seq<Command>>,
) -> bool {
    &&& post.len() == pre.len()
    &&& segs.len() == pre.len()
    &&& cmds == segs.flatten()
    &&& forall|i: int|
        0 <= i < pre.len() ==> #[trigger] scheduled_ok(pre[i], i, kind, env, post[i], segs[i])
}

/// A scheduled dispatch routes each interested, enabled child through
/// the delay/liveness scheduler individually.
pub open spec fn scheduled_post(
    pre: Seq<Behavior>,
    kind: EventKind,
    env: ElementSnapshot,
    post: Seq<Behavior>,
    cmds: Seq<Command>,
) -> bool {
    exists|segs: Seq<Seq<Command>>| #[trigger] scheduled_segs(pre, kind, env, post, cmds, segs)
}

} // verus!

//! The class-toggling entry behavior.
//!
//! Applies CSS classes to an element entering the visible tree:
//! - `source`: added before the element is inserted, removed one frame
//!   after;
//! - `active`: applied during the entire entering phase, removed once the
//!   animation finishes;
//! - `target`: added one frame after insertion, removed once the
//!   animation finishes.
//!
//! Transitions are suppressed while the source classes go in, so the
//! element first paints in its source state.

use vstd::prelude::*;

use crate::classes::{add_unique_spec, clone_classes, remove_classes_spec, split_classes_spec, HtmlElementExt};
use crate::command::Command;
use crate::snapshot::ElementSnapshot;
use crate::transition_duration::TransitionDuration;

verus! {

/// Initializes a class-driven entry animation.
#[derive(Clone, PartialEq, Eq, Debug)]
pub struct In {
    pub duration: TransitionDuration,
    pub delay_ms: u64,
    pub enabled: bool,
    pub source: String,
    pub target: String,
    pub active: String,
}

impl Default for In {
    /// No classes, no delay, enabled, finished on "transitionend".
    fn default() -> (r: Self)
        ensures
            r.duration == TransitionDuration::TransitionEnd,
            r.delay_ms == 0,
            r.enabled,
            r.source@ == Seq::<char>::empty(),
            r.target@ == Seq::<char>::empty(),
            r.active@ == Seq::<char>::empty(),
    {
        In {
            duration: TransitionDuration::TransitionEnd,
            delay_ms: 0,
            enabled: true,
            source: String::new(),
            target: String::new(),
            active: String::new(),
        }
    }
}

impl In {
    pub fn duration(self, duration: TransitionDuration) -> (r: In)
        ensures
            r == (In { duration, ..self }),
    {
        In { duration, ..self }
    }

    pub fn delay_ms(self, delay_ms: u64) -> (r: In)
        ensures
            r == (In { delay_ms, ..self }),
    {
        In { delay_ms, ..self }
    }

    pub fn enabled(self, enabled: bool) -> (r: In)
        ensures
            r == (In { enabled, ..self }),
    {
        In { enabled, ..self }
    }

    pub fn source(self, value: &str) -> (r: In)
        ensures
            r.source@ == value@,
            r == (In { source: r.source, ..self }),
    {
        In { source: value.to_owned(), ..self }
    }

    pub fn target(self, value: &str) -> (r: In)
        ensures
            r.target@ == value@,
            r == (In { target: r.target, ..self }),
    {
        In { target: value.to_owned(), ..self }
    }

    pub fn active(self, value: &str) -> (r: In)
        ensures
            r.active@ == value@,
            r == (In { active: r.active, ..self }),
    {
        In { active: value.to_owned(), ..self }
    }

    /// Binds the entry animation to an element.
    pub fn init_animation(self) -> (r: InAnimation)
        ensures
            r.duration == self.duration,
            r.delay_ms == self.delay_ms,
            r.enabled == self.enabled,
            r.source == self.source,
            r.target == self.target,
            r.active == self.active,
            r.initial_transition_duration is None,
            r.classes_to_remove_on_enter is None,
            r.classes_to_remove_on_end is None,
    {
        InAnimation {
            duration: self.duration,
            delay_ms: self.delay_ms,
            enabled: self.enabled,
            source: self.source,
            target: self.target,
            active: self.active,
            initial_transition_duration: None,
            classes_to_remove_on_enter: None,
            classes_to_remove_on_end: None,
        }
    }
}

/// The class-driven entry animation bound to one element.
#[derive(Clone, PartialEq, Eq, Debug)]
pub struct InAnimation {
    pub duration: TransitionDuration,
    pub delay_ms: u64,
    pub enabled: bool,
    pub source: String,
    pub target: String,
    pub active: String,
    /// The inline "transition-duration" saved while it is suppressed.
    pub initial_transition_duration: Option<crate::command::StyleEntry>,
    /// The source classes this behavior added, removed on entry.
    pub classes_to_remove_on_enter: Option<Vec<String>>,
    /// The active and target classes this behavior added, removed once
    /// the animation finishes.
    pub classes_to_remove_on_end: Option<Vec<String>>,
}

/// What applying a configured class string to a list adds: nothing when
/// the configuration is empty, else the classes not already present.
pub open spec fn spec_apply(cl: Seq<Seq<char>>, cfg: Seq<char>) -> (Seq<Seq<char>>, Seq<
    Seq<char>,
>) {
    if cfg.len() == 0 {
        (cl, Seq::empty())
    } else {
        add_unique_spec(cl, split_classes_spec(cfg))
    }
}

/// Everything the pre-insertion step of the entry animation promises.
pub open spec fn in_before_post(
    pre: InAnimation,
    env: ElementSnapshot,
    post: InAnimation,
    cmds: Seq<Command>,
) -> bool {
    let cl0 = env.classes.classes.deep_view();
    let active_step = spec_apply(cl0, pre.active@);
    let source_step = spec_apply(active_step.0, pre.source@);
    let n_active: int = if pre.active@.len() == 0 {
        0
    } else {
        1
    };
    let n_source: int = if pre.source@.len() == 0 {
        0
    } else {
        1
    };
    &&& post.duration == pre.duration
    &&& post.delay_ms == pre.delay_ms
    &&& post.enabled == pre.enabled
    &&& post.source == pre.source
    &&& post.target == pre.target
    &&& post.active == pre.active
    &&& post.initial_transition_duration == Some(env.transition_duration)
    &&& cmds.len() == 1 + n_active + n_source
    &&& cmds[0] == Command::SuppressTransitionDuration
    &&& (pre.active@.len() != 0 ==> (cmds[1] matches Command::AddClasses(a) && a.deep_view()
        == active_step.1))
    &&& (pre.source@.len() != 0 ==> (cmds[n_active + 1] matches Command::AddClasses(a)
        && a.deep_view() == source_step.1))
    &&& (if pre.active@.len() == 0 {
        post.classes_to_remove_on_end == pre.classes_to_remove_on_end
    } else {
        post.classes_to_remove_on_end matches Some(v) && v.deep_view() == active_step.1
    })
    &&& (if pre.source@.len() == 0 {
        post.classes_to_remove_on_enter == pre.classes_to_remove_on_enter
    } else {
        post.classes_to_remove_on_enter matches Some(v) && v.deep_view() == source_step.1
    })
}

impl InAnimation {
    pub fn listening_for_before_enter(&self) -> (r: bool)
        ensures
            r,
    {
        true
    }

    pub fn listening_for_enter(&self) -> (r: bool)
        ensures
            r,
    {
        true
    }

    pub fn enter_delay(&self) -> (r: u64)
        ensures
            r == self.delay_ms,
    {
        self.delay_ms
    }

    pub fn enabled(&self) -> (r: bool)
        ensures
            r == self.enabled,
    {
        self.enabled
    }

    /// Before the element is inserted: saves and suppresses its
    /// transition duration, then applies the active classes and the
    /// source classes, remembering exactly what was added.  The active
    /// classes go in first, so they are not later removed along with the
    /// source classes.
    pub fn on_before_enter(&mut self, element: &ElementSnapshot) -> (cmds: Vec<Command>)
        ensures
            in_before_post(*old(self), *element, *final(self), cmds@),
    {
        self.initial_transition_duration = Some(element.transition_duration.clone());
        let mut cmds: Vec<Command> = Vec::new();
        cmds.push(Command::SuppressTransitionDuration);
        let mut cl = element.classes.clone();
        if !self.active.as_str().is_empty() {
            proof {
                assert(self.active@.len() > 0);
            }
            let added = cl.add_unique_classes(self.active.as_str());
            let recorded = clone_classes(&added);
            self.classes_to_remove_on_end = Some(recorded);
            cmds.push(Command::AddClasses(added));
        } else {
            proof {
                assert(self.active@.len() == 0);
            }
        }
        if !self.source.as_str().is_empty() {
            proof {
                assert(self.source@.len() > 0);
            }
            let added = cl.add_unique_classes(self.source.as_str());
            let recorded = clone_classes(&added);
            self.classes_to_remove_on_enter = Some(recorded);
            cmds.push(Command::AddClasses(added));
        } else {
            proof {
                assert(self.source@.len() == 0);
            }
        }
        cmds
    }

    /// One frame after insertion, once its delay has passed: restores
    /// the transition duration, removes the source classes, applies the
    /// target classes, and schedules the active and target classes for
    /// removal when the animation finishes.  If the pre-insertion step
    /// never ran, the operation is abandoned without touching anything.
    pub fn on_enter(&mut self, element: &ElementSnapshot) -> (cmds: Vec<Command>)
        ensures
            in_enter_post(*old(self), *element, *final(self), cmds@),
    {
        if self.initial_transition_duration.is_none() {
            return Vec::new();
        }
        let saved = match &self.initial_transition_duration {
            Some(saved) => saved.clone(),
            None => vstd::pervasive::unreached(),
        };
        let mut cmds: Vec<Command> = Vec::new();
        cmds.push(Command::RestoreTransitionDuration(saved));
        let mut cl = element.classes.clone();
        match self.classes_to_remove_on_enter.take() {
            Some(v) => {
                cl.remove_classes(&v);
                cmds.push(Command::RemoveClasses(v));
            },
            None => {},
        }
        let had_end: bool = self.classes_to_remove_on_end.is_some();
        let mut end: Vec<String> = match self.classes_to_remove_on_end.take() {
            Some(v) => v,
            None => Vec::new(),
        };
        let ghost end0 = end.deep_view();
        if !self.target.as_str().is_empty() {
            proof {
                assert(self.target@.len() > 0);
            }
            let added = cl.add_unique_classes(self.target.as_str());
            let ghost added_view = added.deep_view();
            cmds.push(Command::AddClasses(clone_classes(&added)));
            end = append_classes(end, added);
            proof {
                assert(end.deep_view() =~= end0 + added_view);
            }
        } else {
            proof {
                assert(self.target@.len() == 0);
                assert(end.deep_view() =~= end0 + Seq::<Seq<char>>::empty());
            }
        }
        if had_end || !self.target.as_str().is_empty() {
            cmds.push(Command::RemoveClassesAfter { when: self.duration, classes: end });
        }
        cmds
    }
}

/// Everything the post-insertion step of the entry animation promises.
/// If the pre-insertion step never ran, the operation is abandoned and
/// nothing is touched.
pub open spec fn in_enter_post(
    pre: InAnimation,
    env: ElementSnapshot,
    post: InAnimation,
    cmds: Seq<Command>,
) -> bool {
    let cl0 = env.classes.classes.deep_view();
    let cl1 = match pre.classes_to_remove_on_enter {
        Some(v) => remove_classes_spec(cl0, v.deep_view()),
        None => cl0,
    };
    let target_step = spec_apply(cl1, pre.target@);
    let end0: Seq<Seq<char>> = match pre.classes_to_remove_on_end {
        Some(v) => v.deep_view(),
        None => Seq::empty(),
    };
    let full_end = end0 + target_step.1;
    let has_end = pre.classes_to_remove_on_end is Some || pre.target@.len() != 0;
    let n_remove: int = if pre.classes_to_remove_on_enter is Some {
        1
    } else {
        0
    };
    let n_target: int = if pre.target@.len() == 0 {
        0
    } else {
        1
    };
    let n_end: int = if has_end {
        1
    } else {
        0
    };
    &&& post.duration == pre.duration
    &&& post.delay_ms == pre.delay_ms
    &&& post.enabled == pre.enabled
    &&& post.source == pre.source
    &&& post.target == pre.target
    &&& post.active == pre.active
    &&& post.initial_transition_duration == pre.initial_transition_duration
    &&& (pre.initial_transition_duration is None ==> cmds == Seq::<Command>::empty() && post
        == pre)
    &&& (pre.initial_transition_duration matches Some(saved) ==> {
        &&& cmds.len() == 1 + n_remove + n_target + n_end
        &&& cmds[0] == Command::RestoreTransitionDuration(saved)
        &&& (pre.classes_to_remove_on_enter matches Some(v) ==> cmds[1]
            == Command::RemoveClasses(v))
        &&& (pre.target@.len() != 0 ==> (cmds[n_remove + 1] matches Command::AddClasses(a)
            && a.deep_view() == target_step.1))
        &&& (has_end ==> (cmds[n_remove + n_target + 1] matches Command::RemoveClassesAfter {
            when,
            classes,
        } && when == pre.duration && classes.deep_view() == full_end))
        &&& post.classes_to_remove_on_enter is None
        &&& post.classes_to_remove_on_end is None
    })
}

/// The entry animation's reaction to any lifecycle event.
pub open spec fn in_step(
    pre: InAnimation,
    kind: crate::events::EventKind,
    env: ElementSnapshot,
    post: InAnimation,
    cmds: Seq<Command>,
) -> bool {
    match kind {
        crate::events::EventKind::BeforeEnter => in_before_post(pre, env, post, cmds),
        crate::events::EventKind::Enter => in_enter_post(pre, env, post, cmds),
        _ => post == pre && cmds == Seq::<Command>::empty(),
    }
}

/// Appends the second list of classes to the first.
fn append_classes(a: Vec<String>, b: Vec<String>) -> (r: Vec<String>)
    ensures
        r.deep_view() == a.deep_view() + b.deep_view(),
{
    let ghost a0 = a.deep_view();
    let ghost b0 = b.deep_view();
    let mut out = a;
    proof {
        assert(out.deep_view() =~= a0 + b0.subrange(0, 0));
    }
    let mut k: usize = 0;
    while k < b.len()
        invariant
            0 <= k <= b.len(),
            b.deep_view() == b0,
            out.deep_view() == a0 + b0.subrange(0, k as int),
        decreases b.len() - k,
    {
        let ghost pre = out.deep_view();
        let c: String = b[k].clone();
        out.push(c);
        proof {
            assert(out.deep_view() =~= pre.push(b0[k as int]));
            assert((a0 + b0.subrange(0, k as int)).push(b0[k as int]) =~= a0 + b0.subrange(
                0,
                k + 1,
            ));
        }
        k = k + 1;
    }
    proof {
        assert(b0.subrange(0, b0.len() as int) =~= b0);
    }
    out
}

} // verus!

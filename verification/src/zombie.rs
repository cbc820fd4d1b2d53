//! The exit continuation.
//!
//! When the host discards an element's bookkeeping, this behavior keeps
//! the real element alive and animating a while longer: it re-fixes the
//! element's rendered position (its old parent layout no longer accounts
//! for it), re-inserts it into its last known parent, runs the
//! caller-supplied before-entry and on-entry actions each at most once,
//! and removes the element for good when the configured completion
//! signal fires.

use vstd::prelude::*;

use crate::classes::{clone_classes, remove_classes_spec, HtmlElementExt};
use crate::classes_in::spec_apply;
use crate::command::{AnimationSpec, Command, DurationChoice, KeyframeSpec, StyleEntry};
use crate::geometry::Rect;
use crate::slot::Slot;
use crate::snapshot::ElementSnapshot;
use crate::transition_duration::TransitionDuration;

verus! {

/// Why a revival was abandoned.  None of these corrupts the element: the
/// animation silently does not play.
#[derive(Clone, Copy, PartialEq, Eq, Structural, Debug)]
pub enum ZombieError {
    /// The element was reused by a successor and could not be cloned.
    CloneFailed,
    /// The guard attribute could not be set.
    MarkFailed,
    /// No parent was ever recorded: there is nowhere to reinsert.
    ParentNotFound,
    /// The last known parent has itself left the visible tree.
    ParentNotConnected,
}

/// What a continuation runs at one of its two re-entry points.
#[derive(Clone, PartialEq, Eq, Debug)]
pub enum EntryAction {
    /// Hand control to the host callback registered under this token.
    Callback(u64),
    /// Save the transition duration and apply the exit `source` and
    /// `active` classes, remembering which source classes were added.
    ApplyExitClasses { source: String, active: String },
    /// Restore the saved transition duration, remove the remembered
    /// classes, and apply the exit `target` classes.
    FinishExitClasses { target: String },
    /// Start a fade-out animation.
    FadeOut { duration_ms: u64, delay_ms: u64 },
}

/// Builds an exit continuation.
#[derive(Clone, PartialEq, Eq, Debug)]
pub struct Zombie {
    pub before_enter: Slot<EntryAction>,
    pub enter: Slot<EntryAction>,
    pub duration: TransitionDuration,
    pub delay_ms: u64,
    pub enabled: bool,
}

impl Default for Zombie {
    /// No entry actions, no delay, enabled, finished on "transitionend".
    fn default() -> (r: Self)
        ensures
            r.before_enter.value is None,
            r.enter.value is None,
            r.duration == TransitionDuration::TransitionEnd,
            r.delay_ms == 0,
            r.enabled,
    {
        Zombie {
            before_enter: Slot::empty(),
            enter: Slot::empty(),
            duration: TransitionDuration::TransitionEnd,
            delay_ms: 0,
            enabled: true,
        }
    }
}

impl Zombie {
    /// Registers the host callback run right before re-entry.
    pub fn before_enter(self, token: u64) -> (r: Zombie)
        ensures
            r == (Zombie { before_enter: r.before_enter, ..self }),
            r.before_enter.value == Some(EntryAction::Callback(token)),
    {
        Zombie { before_enter: Slot::full(EntryAction::Callback(token)), ..self }
    }

    /// Registers the host callback run on re-entry.
    pub fn enter(self, token: u64) -> (r: Zombie)
        ensures
            r == (Zombie { enter: r.enter, ..self }),
            r.enter.value == Some(EntryAction::Callback(token)),
    {
        Zombie { enter: Slot::full(EntryAction::Callback(token)), ..self }
    }

    pub fn duration(self, duration: TransitionDuration) -> (r: Zombie)
        ensures
            r == (Zombie { duration, ..self }),
    {
        Zombie { duration, ..self }
    }

    pub fn delay_ms(self, delay_ms: u64) -> (r: Zombie)
        ensures
            r == (Zombie { delay_ms, ..self }),
    {
        Zombie { delay_ms, ..self }
    }

    pub fn enabled(self, enabled: bool) -> (r: Zombie)
        ensures
            r == (Zombie { enabled, ..self }),
    {
        Zombie { enabled, ..self }
    }

    /// Binds the continuation to an element, snapshotting its rectangle.
    pub fn init_animation(self, element: &ElementSnapshot) -> (r: ZombieAnimation)
        ensures
            r == (ZombieAnimation {
                before_enter: self.before_enter,
                enter: self.enter,
                duration: self.duration,
                delay_ms: self.delay_ms,
                enabled: self.enabled,
                last_rect: element.rect,
                parent_recorded: false,
                exit_saved: None,
                exit_added: None,
                suppressed: None,
            }),
    {
        ZombieAnimation {
            before_enter: self.before_enter,
            enter: self.enter,
            duration: self.duration,
            delay_ms: self.delay_ms,
            enabled: self.enabled,
            last_rect: element.rect,
            parent_recorded: false,
            exit_saved: None,
            exit_added: None,
            suppressed: None,
        }
    }
}

/// The continuation bound to one element, recording the geometry it will
/// need at teardown.
#[derive(Clone, PartialEq, Eq, Debug)]
pub struct ZombieAnimation {
    pub before_enter: Slot<EntryAction>,
    pub enter: Slot<EntryAction>,
    pub duration: TransitionDuration,
    pub delay_ms: u64,
    pub enabled: bool,
    /// The rectangle recorded by the latest lifecycle event; the last
    /// one before teardown is authoritative.
    pub last_rect: Rect,
    /// Whether a parent element was seen at the latest recording.
    pub parent_recorded: bool,
    /// The transition duration the exit-classes action saved.
    pub exit_saved: Option<StyleEntry>,
    /// The source classes the exit-classes action added.
    pub exit_added: Option<Vec<String>>,
    /// The transition duration this continuation itself suppressed while
    /// setting up a fresh revival.
    pub suppressed: Option<StyleEntry>,
}

/// How many commands running `a` emits against this snapshot and
/// remembered exit state.
pub open spec fn spec_action_len(
    a: EntryAction,
    pre_added: Option<Vec<String>>,
    env: ElementSnapshot,
) -> int {
    match a {
        EntryAction::Callback(_) => 1,
        EntryAction::FadeOut { .. } => 1,
        EntryAction::ApplyExitClasses { source, active } => {
            (if source@.len() == 0 {
                0int
            } else {
                1int
            }) + (if active@.len() == 0 {
                0int
            } else {
                1int
            })
        },
        EntryAction::FinishExitClasses { target } => {
            1 + (if pre_added is Some {
                1int
            } else {
                0int
            }) + (if target@.len() == 0 {
                0int
            } else {
                1int
            })
        },
    }
}

/// What running an entry action does: the commands it emits and how it
/// moves the remembered exit state.
pub open spec fn action_cmds_ok(
    a: EntryAction,
    env: ElementSnapshot,
    pre_saved: Option<StyleEntry>,
    pre_added: Option<Vec<String>>,
    cmds: Seq<Command>,
    post_saved: Option<StyleEntry>,
    post_added: Option<Vec<String>>,
) -> bool {
    cmds.len() == spec_action_len(a, pre_added, env) && match a {
        EntryAction::Callback(t) => {
            &&& cmds[0] == Command::RunCallback(t)
            &&& post_saved == pre_saved
            &&& post_added == pre_added
        },
        EntryAction::FadeOut { duration_ms, delay_ms } => {
            &&& cmds[0] == Command::StartAnimation(AnimationSpec {
                handle: 0,
                keyframes: KeyframeSpec::FadeOut,
                duration: DurationChoice::Millis(duration_ms),
                delay_ms,
            })
            &&& post_saved == pre_saved
            &&& post_added == pre_added
        },
        EntryAction::ApplyExitClasses { source, active } => {
            let cl0 = env.classes.classes.deep_view();
            let s_step = spec_apply(cl0, source@);
            let a_step = spec_apply(s_step.0, active@);
            let n_s: int = if source@.len() == 0 {
                0
            } else {
                1
            };
            &&& post_saved == Some(env.transition_duration)
            &&& (source@.len() != 0 ==> (cmds[0] matches Command::AddClasses(v) && v.deep_view()
                == s_step.1))
            &&& (source@.len() != 0 ==> (post_added matches Some(v) && v.deep_view() == s_step.1))
            &&& (source@.len() == 0 ==> post_added == pre_added)
            &&& (active@.len() != 0 ==> (cmds[n_s] matches Command::AddClasses(v) && v.deep_view()
                == a_step.1))
        },
        EntryAction::FinishExitClasses { target } => {
            let cl0 = env.classes.classes.deep_view();
            let cl1 = match pre_added {
                Some(v) => remove_classes_spec(cl0, v.deep_view()),
                None => cl0,
            };
            let t_step = spec_apply(cl1, target@);
            let n_r: int = if pre_added is Some {
                1
            } else {
                0
            };
            &&& (pre_saved matches Some(s) ==> cmds[0] == Command::RestoreTransitionDuration(s))
            &&& (pre_saved is None ==> (cmds[0] matches Command::RestoreTransitionDuration(e)
                && e.value@ == Seq::<char>::empty() && e.priority@ == Seq::<char>::empty()))
            &&& (pre_added matches Some(v) ==> cmds[1] == Command::RemoveClasses(v))
            &&& (target@.len() != 0 ==> (cmds[1 + n_r] matches Command::AddClasses(v)
                && v.deep_view() == t_step.1))
            &&& post_saved is None
            &&& post_added is None
        },
    }
}

/// A fresh revival: the element is not already sitting in the tree as a
/// revived continuation, so this continuation must re-fix and re-insert
/// it.
pub open spec fn spec_fresh(env: ElementSnapshot) -> bool {
    !(env.connected && env.marked_revived)
}

/// The element is connected but not marked: it was reused by a
/// successor, so this continuation claims a deep clone instead.
pub open spec fn spec_clone_path(env: ElementSnapshot) -> bool {
    env.connected && !env.marked_revived
}

/// Everything the teardown step promises: which commands go out, in
/// which order, and how the continuation's state moves.
pub open spec fn cleanup_post(
    pre: ZombieAnimation,
    env: ElementSnapshot,
    cmds: Seq<Command>,
    post: ZombieAnimation,
    r: Result<(), ZombieError>,
) -> bool {
    let fresh = spec_fresh(env);
    let marker: Command = if spec_clone_path(env) {
        Command::CloneElement
    } else {
        Command::MarkRevived
    };
    let n_fix: int = if fresh {
        1
    } else {
        0
    };
    let n_entry: int = match pre.before_enter.value {
        Some(a) => spec_action_len(a, pre.exit_added, env),
        None => 0,
    };
    let n_tail: int = if fresh {
        2
    } else {
        0
    };
    if spec_clone_path(env) && !env.clone_ok {
        r == Result::<(), ZombieError>::Err(ZombieError::CloneFailed) && cmds
            == Seq::<Command>::empty() && post == pre
    } else if !spec_clone_path(env) && !env.mark_ok {
        r == Result::<(), ZombieError>::Err(ZombieError::MarkFailed) && cmds
            == Seq::<Command>::empty() && post == pre
    } else if !pre.parent_recorded {
        r == Result::<(), ZombieError>::Err(ZombieError::ParentNotFound) && cmds == seq![marker]
            && post == pre
    } else if !env.parent_connected {
        r == Result::<(), ZombieError>::Err(ZombieError::ParentNotConnected) && cmds
            == seq![marker] && post == pre
    } else {
        &&& r is Ok
        &&& cmds.len() == 1 + n_fix + n_entry + n_tail + 1
        &&& cmds[0] == marker
        &&& (fresh ==> cmds[1] == Command::FixPosition {
            top: (pre.last_rect.top - env.document_top) as i64,
            left: (pre.last_rect.left - env.document_left) as i64,
            width: pre.last_rect.width,
            height: pre.last_rect.height,
        })
        &&& (match pre.before_enter.value {
            Some(a) => action_cmds_ok(a, env, pre.exit_saved, pre.exit_added, cmds.subrange(
                1 + n_fix,
                1 + n_fix + n_entry,
            ), post.exit_saved, post.exit_added),
            None => post.exit_saved == pre.exit_saved && post.exit_added == pre.exit_added,
        })
        &&& (fresh ==> cmds[1 + n_fix + n_entry] == Command::SuppressTransitionDuration
            && cmds[2 + n_fix + n_entry] == Command::AppendToParent)
        &&& cmds[cmds.len() - 1] == Command::AwaitRevivalTick { delay_ms: pre.delay_ms }
        &&& post.before_enter.value is None
        &&& post.enter == pre.enter
        &&& post.suppressed == (if fresh {
            Some(env.transition_duration)
        } else {
            pre.suppressed
        })
        &&& post.last_rect == pre.last_rect
        &&& post.parent_recorded == pre.parent_recorded
        &&& post.duration == pre.duration
        &&& post.delay_ms == pre.delay_ms
        &&& post.enabled == pre.enabled
    }
}

/// Everything the post-revival step promises, one frame plus the
/// configured delay after a successful teardown.
pub open spec fn revival_post(
    pre: ZombieAnimation,
    env: ElementSnapshot,
    cmds: Seq<Command>,
    post: ZombieAnimation,
) -> bool {
    let n_restore: int = if pre.suppressed is Some {
        1
    } else {
        0
    };
    let n_entry: int = match pre.enter.value {
        Some(a) => spec_action_len(a, pre.exit_added, env),
        None => 0,
    };
    &&& cmds.len() == n_restore + n_entry + 1
    &&& (pre.suppressed matches Some(s) ==> cmds[0] == Command::RestoreTransitionDuration(s))
    &&& (match pre.enter.value {
        Some(a) => action_cmds_ok(a, env, pre.exit_saved, pre.exit_added, cmds.subrange(
            n_restore,
            n_restore + n_entry,
        ), post.exit_saved, post.exit_added),
        None => post.exit_saved == pre.exit_saved && post.exit_added == pre.exit_added,
    })
    &&& cmds[cmds.len() - 1] == Command::RemoveElementAfter(pre.duration)
    &&& post.suppressed is None
    &&& post.enter.value is None
    &&& post.before_enter == pre.before_enter
    &&& post.last_rect == pre.last_rect
    &&& post.parent_recorded == pre.parent_recorded
    &&& post.duration == pre.duration
    &&& post.delay_ms == pre.delay_ms
    &&& post.enabled == pre.enabled
}

/// The continuation's reaction to any lifecycle event: it records
/// geometry on everything it hears until teardown, and on teardown it
/// revives the element, reporting an abandoned revival as a log command.
pub open spec fn zombie_step(
    pre: ZombieAnimation,
    kind: crate::events::EventKind,
    env: ElementSnapshot,
    post: ZombieAnimation,
    cmds: Seq<Command>,
) -> bool {
    match kind {
        crate::events::EventKind::Enter | crate::events::EventKind::Mutation
            | crate::events::EventKind::ParentMutation
            | crate::events::EventKind::EnterAnimationsFinished
            | crate::events::EventKind::MutationAnimationsFinished
            | crate::events::EventKind::ParentMutationAnimationsFinished => {
            post == (ZombieAnimation {
                last_rect: env.rect,
                parent_recorded: env.parent_present,
                ..pre
            }) && cmds == Seq::<Command>::empty()
        },
        crate::events::EventKind::Cleanup => exists|core: Seq<Command>, r: Result<
            (),
            ZombieError,
        >|
            {
                &&& #[trigger] cleanup_post(pre, env, core, post, r)
                &&& cmds == core + (match r {
                    Ok(_) => Seq::<Command>::empty(),
                    Err(e) => seq![Command::LogError(e)],
                })
            },
        _ => post == pre && cmds == Seq::<Command>::empty(),
    }
}

impl ZombieAnimation {
    pub open spec fn wf(self) -> bool {
        self.last_rect.wf()
    }

    pub fn listening_for_enter(&self) -> (r: bool)
        ensures
            r,
    {
        true
    }

    pub fn listening_for_mutation(&self) -> (r: bool)
        ensures
            r,
    {
        true
    }

    pub fn listening_for_parent_mutation(&self) -> (r: bool)
        ensures
            r,
    {
        true
    }

    pub fn listening_for_enter_animations_finished(&self) -> (r: bool)
        ensures
            r,
    {
        true
    }

    pub fn listening_for_mutation_animations_finished(&self) -> (r: bool)
        ensures
            r,
    {
        true
    }

    pub fn listening_for_parent_mutation_animations_finished(&self) -> (r: bool)
        ensures
            r,
    {
        true
    }

    pub fn listening_for_cleanup(&self) -> (r: bool)
        ensures
            r,
    {
        true
    }

    pub fn enabled(&self) -> (r: bool)
        ensures
            r == self.enabled,
    {
        self.enabled
    }

    /// Captures the element's rectangle and parent; whichever lifecycle
    /// event happens last before teardown leaves the authoritative
    /// record.
    pub fn record(&mut self, element: &ElementSnapshot)
        ensures
            *final(self) == (ZombieAnimation {
                last_rect: element.rect,
                parent_recorded: element.parent_present,
                ..*old(self)
            }),
    {
        self.last_rect = element.rect;
        self.parent_recorded = element.parent_present;
    }

    /// Runs one entry action against the snapshot, updating the
    /// remembered exit state.
    fn run_entry_action(&mut self, action: EntryAction, element: &ElementSnapshot) -> (cmds: Vec<
        Command,
    >)
        ensures
            *final(self) == (ZombieAnimation {
                exit_saved: final(self).exit_saved,
                exit_added: final(self).exit_added,
                ..*old(self)
            }),
            action_cmds_ok(action, *element, old(self).exit_saved, old(self).exit_added, cmds@,
                final(self).exit_saved, final(self).exit_added),
    {
        let mut cmds: Vec<Command> = Vec::new();
        match action {
            EntryAction::Callback(t) => {
                cmds.push(Command::RunCallback(t));
            },
            EntryAction::FadeOut { duration_ms, delay_ms } => {
                cmds.push(
                    Command::StartAnimation(
                        AnimationSpec {
                            handle: 0,
                            keyframes: KeyframeSpec::FadeOut,
                            duration: DurationChoice::Millis(duration_ms),
                            delay_ms,
                        },
                    ),
                );
            },
            EntryAction::ApplyExitClasses { source, active } => {
                self.exit_saved = Some(element.transition_duration.clone());
                let mut cl = element.classes.clone();
                if !source.as_str().is_empty() {
                    let added = cl.add_unique_classes(source.as_str());
                    let recorded = clone_classes(&added);
                    self.exit_added = Some(recorded);
                    cmds.push(Command::AddClasses(added));
                }
                if !active.as_str().is_empty() {
                    let added = cl.add_unique_classes(active.as_str());
                    cmds.push(Command::AddClasses(added));
                }
            },
            EntryAction::FinishExitClasses { target } => {
                let saved: StyleEntry = match self.exit_saved.take() {
                    Some(s) => s,
                    None => StyleEntry::empty(),
                };
                cmds.push(Command::RestoreTransitionDuration(saved));
                let mut cl = element.classes.clone();
                match self.exit_added.take() {
                    Some(v) => {
                        cl.remove_classes(&v);
                        cmds.push(Command::RemoveClasses(v));
                    },
                    None => {},
                }
                if !target.as_str().is_empty() {
                    let added = cl.add_unique_classes(target.as_str());
                    cmds.push(Command::AddClasses(added));
                }
            },
        }
        cmds
    }

    /// The teardown step: decides between reuse, clone, and fresh
    /// revival, re-fixes and re-inserts a freshly revived element, runs
    /// the before-entry action at most once, and asks the host to come
    /// back one frame plus the configured delay later.
    pub fn on_cleanup(&mut self, element: &ElementSnapshot) -> (r: (Vec<Command>, Result<
        (),
        ZombieError,
    >))
        requires
            old(self).wf(),
            element.wf(),
        ensures
            cleanup_post(*old(self), *element, r.0@, *final(self), r.1),
    {
        let mut cmds: Vec<Command> = Vec::new();
        let already: bool = if element.connected && !element.marked_revived {
            if !element.clone_ok {
                return (cmds, Err(ZombieError::CloneFailed));
            }
            cmds.push(Command::CloneElement);
            false
        } else {
            if !element.mark_ok {
                return (cmds, Err(ZombieError::MarkFailed));
            }
            cmds.push(Command::MarkRevived);
            element.connected
        };
        if !self.parent_recorded {
            return (cmds, Err(ZombieError::ParentNotFound));
        }
        if !element.parent_connected {
            return (cmds, Err(ZombieError::ParentNotConnected));
        }
        if !already {
            cmds.push(
                Command::FixPosition {
                    top: self.last_rect.top - element.document_top,
                    left: self.last_rect.left - element.document_left,
                    width: self.last_rect.width,
                    height: self.last_rect.height,
                },
            );
        }
        let ghost n_fix: int = if !already {
            1
        } else {
            0
        };
        let ghost mut entry_seq: Seq<Command> = Seq::empty();
        match self.before_enter.take() {
            Some(action) => {
                let mut entry = self.run_entry_action(action, element);
                proof {
                    entry_seq = entry@;
                }
                cmds.append(&mut entry);
            },
            None => {},
        }
        if !already {
            self.suppressed = Some(element.transition_duration.clone());
            cmds.push(Command::SuppressTransitionDuration);
            cmds.push(Command::AppendToParent);
        }
        cmds.push(Command::AwaitRevivalTick { delay_ms: self.delay_ms });
        proof {
            assert(cmds@.subrange(1 + n_fix, 1 + n_fix + entry_seq.len() as int) =~= entry_seq);
        }
        (cmds, Ok(()))
    }

    /// The post-revival step, one frame plus the configured delay after
    /// a successful teardown: restores the suppressed transition
    /// duration, runs the on-entry action at most once, and schedules
    /// the final removal on the configured completion signal.
    pub fn on_revival_tick(&mut self, element: &ElementSnapshot) -> (cmds: Vec<Command>)
        ensures
            revival_post(*old(self), *element, cmds@, *final(self)),
    {
        let mut cmds: Vec<Command> = Vec::new();
        match self.suppressed.take() {
            Some(saved) => {
                cmds.push(Command::RestoreTransitionDuration(saved));
            },
            None => {},
        }
        let ghost n_restore: int = cmds@.len() as int;
        let ghost mut entry_seq: Seq<Command> = Seq::empty();
        match self.enter.take() {
            Some(action) => {
                let mut entry = self.run_entry_action(action, element);
                proof {
                    entry_seq = entry@;
                }
                cmds.append(&mut entry);
            },
            None => {},
        }
        let removal = self.duration.on_transition_end();
        cmds.push(removal);
        proof {
            assert(cmds@.subrange(n_restore, n_restore + entry_seq.len() as int) =~= entry_seq);
        }
        cmds
    }
}

/// How many host callbacks a command sequence runs.
pub open spec fn count_callback_runs(cmds: Seq<Command>) -> int
    decreases cmds.len(),
{
    if cmds.len() == 0 {
        0
    } else {
        (if cmds[0] is RunCallback {
            1int
        } else {
            0int
        }) + count_callback_runs(cmds.drop_first())
    }
}

proof fn lemma_count_concat(a: Seq<Command>, b: Seq<Command>)
    ensures
        count_callback_runs(a + b) == count_callback_runs(a) + count_callback_runs(b),
    decreases a.len(),
{
    if a.len() == 0 {
        assert(a + b =~= b);
    } else {
        assert((a + b).drop_first() =~= a.drop_first() + b);
        lemma_count_concat(a.drop_first(), b);
    }
}

/// A sequence whose elements are all pinned to non-callback commands
/// runs no callback.
proof fn lemma_count_zero(cmds: Seq<Command>)
    requires
        forall|i: int| 0 <= i < cmds.len() ==> !(#[trigger] cmds[i] is RunCallback),
    ensures
        count_callback_runs(cmds) == 0,
    decreases cmds.len(),
{
    if cmds.len() > 0 {
        lemma_count_zero(cmds.drop_first());
    }
}

/// One entry action runs the caller-supplied callback exactly when it
/// is the callback action, and then exactly once.
pub proof fn lemma_action_callback_once(
    a: EntryAction,
    env: ElementSnapshot,
    pre_saved: Option<StyleEntry>,
    pre_added: Option<Vec<String>>,
    cmds: Seq<Command>,
    post_saved: Option<StyleEntry>,
    post_added: Option<Vec<String>>,
)
    requires
        action_cmds_ok(a, env, pre_saved, pre_added, cmds, post_saved, post_added),
    ensures
        count_callback_runs(cmds) == (if a is Callback {
            1int
        } else {
            0int
        }),
        forall|i: int|
            0 <= i < cmds.len() ==> !(#[trigger] cmds[i] is FixPosition) && !(cmds[i]
                is AppendToParent) && !(cmds[i] is CloneElement),
{
    reveal_with_fuel(count_callback_runs, 5);
    match a {
        EntryAction::Callback(_) => {
            assert(cmds.drop_first() =~= Seq::<Command>::empty());
        },
        EntryAction::FadeOut { .. } => {
            assert(cmds.drop_first() =~= Seq::<Command>::empty());
        },
        EntryAction::ApplyExitClasses { source, active } => {
            lemma_count_zero(cmds);
        },
        EntryAction::FinishExitClasses { target } => {
            lemma_count_zero(cmds);
        },
    }
}

/// For any single teardown, the caller-supplied before-entry callback
/// runs at most once — and never, if an earlier teardown already
/// consumed it.
pub proof fn lemma_teardown_callback_at_most_once(
    pre: ZombieAnimation,
    env: ElementSnapshot,
    cmds: Seq<Command>,
    post: ZombieAnimation,
    r: Result<(), ZombieError>,
)
    requires
        cleanup_post(pre, env, cmds, post, r),
    ensures
        count_callback_runs(cmds) <= 1,
        pre.before_enter.value is None ==> count_callback_runs(cmds) == 0,
        r is Ok ==> post.before_enter.value is None,
{
    reveal_with_fuel(count_callback_runs, 5);
    if (spec_clone_path(env) && !env.clone_ok) || (!spec_clone_path(env) && !env.mark_ok) {
    } else if !pre.parent_recorded || !env.parent_connected {
        lemma_count_zero(cmds);
    } else {
        let fresh = spec_fresh(env);
        let n_fix: int = if fresh {
            1
        } else {
            0
        };
        let n_entry: int = match pre.before_enter.value {
            Some(a) => spec_action_len(a, pre.exit_added, env),
            None => 0,
        };
        let head = cmds.subrange(0, 1 + n_fix);
        let entry = cmds.subrange(1 + n_fix, 1 + n_fix + n_entry);
        let tail = cmds.subrange(1 + n_fix + n_entry, cmds.len() as int);
        assert(cmds =~= head + entry + tail);
        lemma_count_concat(head + entry, tail);
        lemma_count_concat(head, entry);
        lemma_count_zero(head);
        lemma_count_zero(tail);
        match pre.before_enter.value {
            Some(a) => {
                lemma_action_callback_once(a, env, pre.exit_saved, pre.exit_added, entry,
                    post.exit_saved, post.exit_added);
            },
            None => {
                lemma_count_zero(entry);
            },
        }
    }
}

/// The same discipline at the post-revival step: the caller-supplied
/// on-entry callback runs at most once, and a continuation whose slot
/// was already consumed runs nothing.
pub proof fn lemma_revival_callback_at_most_once(
    pre: ZombieAnimation,
    env: ElementSnapshot,
    cmds: Seq<Command>,
    post: ZombieAnimation,
)
    requires
        revival_post(pre, env, cmds, post),
    ensures
        count_callback_runs(cmds) <= 1,
        pre.enter.value is None ==> count_callback_runs(cmds) == 0,
        post.enter.value is None,
{
    reveal_with_fuel(count_callback_runs, 5);
    let n_restore: int = if pre.suppressed is Some {
        1
    } else {
        0
    };
    let n_entry: int = match pre.enter.value {
        Some(a) => spec_action_len(a, pre.exit_added, env),
        None => 0,
    };
    let head = cmds.subrange(0, n_restore);
    let entry = cmds.subrange(n_restore, n_restore + n_entry);
    let tail = cmds.subrange(n_restore + n_entry, cmds.len() as int);
    assert(cmds =~= head + entry + tail);
    lemma_count_concat(head + entry, tail);
    lemma_count_concat(head, entry);
    lemma_count_zero(head);
    lemma_count_zero(tail);
    match pre.enter.value {
        Some(a) => {
            lemma_action_callback_once(a, env, pre.exit_saved, pre.exit_added, entry,
                post.exit_saved, post.exit_added);
        },
        None => {
            lemma_count_zero(entry);
        },
    }
}

/// Double revival: a teardown that finds the element already connected
/// and already marked as a revived continuation reuses it in place — it
/// never re-fixes its position, reinserts it, or clones it.
pub proof fn lemma_double_revival_reuses_in_place(
    pre: ZombieAnimation,
    env: ElementSnapshot,
    cmds: Seq<Command>,
    post: ZombieAnimation,
    r: Result<(), ZombieError>,
)
    requires
        cleanup_post(pre, env, cmds, post, r),
        env.connected,
        env.marked_revived,
        r is Ok,
    ensures
        forall|i: int|
            0 <= i < cmds.len() ==> !(#[trigger] cmds[i] is FixPosition) && !(cmds[i]
                is AppendToParent) && !(cmds[i] is CloneElement),
        post.suppressed == pre.suppressed,
{
    let n_entry: int = match pre.before_enter.value {
        Some(a) => spec_action_len(a, pre.exit_added, env),
        None => 0,
    };
    let entry = cmds.subrange(1, 1 + n_entry);
    match pre.before_enter.value {
        Some(a) => {
            lemma_action_callback_once(a, env, pre.exit_saved, pre.exit_added, entry,
                post.exit_saved, post.exit_added);
        },
        None => {},
    }
    assert forall|i: int|
        0 <= i < cmds.len() implies !(#[trigger] cmds[i] is FixPosition) && !(cmds[i]
        is AppendToParent) && !(cmds[i] is CloneElement) by {
        if 1 <= i < 1 + n_entry {
            assert(cmds[i] == entry[i - 1]);
        }
    }
}

} // verus!

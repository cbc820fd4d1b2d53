use animate_core::command::Command;
use animate_core::geometry::Rect;
use animate_core::snapshot::ElementSnapshot;
use animate_core::transition_duration::TransitionDuration;
use animate_core::zombie::{Zombie, ZombieError};

fn teardown_env() -> ElementSnapshot {
    // A plain teardown: the element just left the tree, its parent is
    // still there.
    let mut e = ElementSnapshot::blank();
    e.connected = false;
    e.parent_present = true;
    e.parent_connected = true;
    e.document_left = 3;
    e.document_top = 7;
    e
}

fn recording_env() -> ElementSnapshot {
    let mut e = ElementSnapshot::blank();
    e.connected = true;
    e.parent_present = true;
    e.parent_connected = true;
    e.rect = Rect { left: 40, top: 60, width: 100, height: 20 };
    e
}

fn count_callbacks(cmds: &[Command]) -> usize {
    cmds.iter().filter(|c| matches!(c, Command::RunCallback(_))).count()
}

#[test]
fn fresh_revival_fixes_reinserts_and_schedules_removal() {
    // Exit continuation with delay zero and a fixed completion: on
    // removal the element is repositioned absolutely to its last
    // rectangle, reinserted, and physically removed after the fixed
    // time.
    let mut z = Zombie::default()
        .before_enter(1)
        .enter(2)
        .duration(TransitionDuration::fixed_ms(300))
        .init_animation(&ElementSnapshot::blank());
    z.record(&recording_env());
    let (cmds, r) = z.on_cleanup(&teardown_env());
    assert!(r.is_ok());
    assert_eq!(
        cmds,
        vec![
            Command::MarkRevived,
            Command::FixPosition { top: 53, left: 37, width: 100, height: 20 },
            Command::RunCallback(1),
            Command::SuppressTransitionDuration,
            Command::AppendToParent,
            Command::AwaitRevivalTick { delay_ms: 0 },
        ]
    );
    let late = z.on_revival_tick(&teardown_env());
    assert_eq!(late.len(), 3);
    assert!(matches!(late[0], Command::RestoreTransitionDuration(_)));
    assert_eq!(late[1], Command::RunCallback(2));
    assert_eq!(late[2], Command::RemoveElementAfter(TransitionDuration::Fixed(300)));
}

#[test]
fn the_last_recording_before_teardown_wins() {
    let mut z = Zombie::default().init_animation(&ElementSnapshot::blank());
    z.record(&recording_env());
    let mut moved = recording_env();
    moved.rect = Rect { left: 1, top: 2, width: 3, height: 4 };
    z.record(&moved);
    assert_eq!(z.last_rect, moved.rect);
}

#[test]
fn each_callback_runs_at_most_once_per_teardown() {
    let mut z = Zombie::default()
        .before_enter(9)
        .enter(10)
        .init_animation(&ElementSnapshot::blank());
    z.record(&recording_env());
    let (cmds, r) = z.on_cleanup(&teardown_env());
    assert!(r.is_ok());
    assert_eq!(count_callbacks(&cmds), 1);
    // The slots were consumed: running the teardown and revival paths
    // again finds nothing to call.
    let (cmds2, r2) = z.on_cleanup(&teardown_env());
    assert!(r2.is_ok());
    assert_eq!(count_callbacks(&cmds2), 0);
    let late = z.on_revival_tick(&teardown_env());
    assert_eq!(count_callbacks(&late), 1);
    let late2 = z.on_revival_tick(&teardown_env());
    assert_eq!(count_callbacks(&late2), 0);
}

#[test]
fn double_revival_reuses_the_element_in_place() {
    // A second continuation finds the element already connected and
    // already marked: it neither re-fixes its position nor reinserts
    // nor clones it.
    let mut z = Zombie::default().before_enter(5).init_animation(&ElementSnapshot::blank());
    z.record(&recording_env());
    let mut env = teardown_env();
    env.connected = true;
    env.marked_revived = true;
    let (cmds, r) = z.on_cleanup(&env);
    assert!(r.is_ok());
    for c in &cmds {
        assert!(!matches!(c, Command::FixPosition { .. }));
        assert!(!matches!(c, Command::AppendToParent));
        assert!(!matches!(c, Command::CloneElement));
    }
    assert_eq!(
        cmds,
        vec![
            Command::MarkRevived,
            Command::RunCallback(5),
            Command::AwaitRevivalTick { delay_ms: 0 },
        ]
    );
}

#[test]
fn a_reused_unmarked_element_is_cloned() {
    let mut z = Zombie::default().init_animation(&ElementSnapshot::blank());
    z.record(&recording_env());
    let mut env = teardown_env();
    env.connected = true;
    env.marked_revived = false;
    let (cmds, r) = z.on_cleanup(&env);
    assert!(r.is_ok());
    assert_eq!(cmds[0], Command::CloneElement);
    // The clone is treated as a fresh revival: fixed and reinserted.
    assert!(cmds.contains(&Command::FixPosition { top: 53, left: 37, width: 100, height: 20 }));
    assert!(cmds.contains(&Command::AppendToParent));
}

#[test]
fn revival_is_abandoned_without_a_parent() {
    let mut z = Zombie::default().init_animation(&ElementSnapshot::blank());
    // Nothing was ever recorded: no parent is known.
    let (cmds, r) = z.on_cleanup(&teardown_env());
    assert_eq!(r, Err(ZombieError::ParentNotFound));
    assert_eq!(cmds, vec![Command::MarkRevived]);
}

#[test]
fn revival_is_abandoned_when_the_parent_left_the_tree() {
    let mut z = Zombie::default().init_animation(&ElementSnapshot::blank());
    z.record(&recording_env());
    let mut env = teardown_env();
    env.parent_connected = false;
    let (_, r) = z.on_cleanup(&env);
    assert_eq!(r, Err(ZombieError::ParentNotConnected));
}

#[test]
fn revival_is_abandoned_when_the_clone_fails() {
    let mut z = Zombie::default().init_animation(&ElementSnapshot::blank());
    z.record(&recording_env());
    let mut env = teardown_env();
    env.connected = true;
    env.clone_ok = false;
    let (cmds, r) = z.on_cleanup(&env);
    assert_eq!(r, Err(ZombieError::CloneFailed));
    assert!(cmds.is_empty());
}

#[test]
fn revival_is_abandoned_when_the_marker_cannot_be_set() {
    let mut z = Zombie::default().init_animation(&ElementSnapshot::blank());
    z.record(&recording_env());
    let mut env = teardown_env();
    env.mark_ok = false;
    let (cmds, r) = z.on_cleanup(&env);
    assert_eq!(r, Err(ZombieError::MarkFailed));
    assert!(cmds.is_empty());
}

#[test]
fn reuse_does_not_suppress_or_restore_the_transition_duration() {
    let mut z = Zombie::default().init_animation(&ElementSnapshot::blank());
    z.record(&recording_env());
    let mut env = teardown_env();
    env.connected = true;
    env.marked_revived = true;
    let (cmds, r) = z.on_cleanup(&env);
    assert!(r.is_ok());
    assert!(!cmds.contains(&Command::SuppressTransitionDuration));
    let late = z.on_revival_tick(&env);
    assert!(!late.iter().any(|c| matches!(c, Command::RestoreTransitionDuration(_))));
}

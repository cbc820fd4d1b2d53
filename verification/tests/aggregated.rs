use animate_core::aggregated::Aggregated;
use animate_core::behavior::{Behavior, Scripted};
use animate_core::command::Command;
use animate_core::events::{EventKind, Interest};
use animate_core::snapshot::ElementSnapshot;

fn interested_in(kind: EventKind) -> Interest {
    let mut i = Interest::none();
    match kind {
        EventKind::BeforeEnter => i.before_enter = true,
        EventKind::Enter => i.enter = true,
        EventKind::ImmediateEffect => i.immediate_effect = true,
        EventKind::Effect => i.effect = true,
        EventKind::Mutation => i.mutation = true,
        EventKind::ParentMutation => i.parent_mutation = true,
        EventKind::EnterAnimationsFinished => i.enter_animations_finished = true,
        EventKind::MutationAnimationsFinished => i.mutation_animations_finished = true,
        EventKind::ParentMutationAnimationsFinished => {
            i.parent_mutation_animations_finished = true
        }
        EventKind::Cleanup => i.cleanup = true,
    }
    i
}

fn connected_element() -> ElementSnapshot {
    let mut e = ElementSnapshot::blank();
    e.connected = true;
    e
}

const ALL_KINDS: [EventKind; 10] = [
    EventKind::BeforeEnter,
    EventKind::Enter,
    EventKind::ImmediateEffect,
    EventKind::Effect,
    EventKind::Mutation,
    EventKind::ParentMutation,
    EventKind::EnterAnimationsFinished,
    EventKind::MutationAnimationsFinished,
    EventKind::ParentMutationAnimationsFinished,
    EventKind::Cleanup,
];

#[test]
fn aggregate_interest_is_the_union_of_child_interests() {
    // For every kind: the aggregate is interested exactly when at least
    // one child is.
    let agg = Aggregated::new(vec![
        Behavior::Scripted(Scripted::new(interested_in(EventKind::Mutation))),
        Behavior::Scripted(Scripted::new(interested_in(EventKind::Cleanup))),
    ]);
    for kind in ALL_KINDS {
        let expected = kind == EventKind::Mutation || kind == EventKind::Cleanup;
        assert_eq!(agg.listening(kind), expected);
    }
    let empty = Aggregated::new(vec![]);
    for kind in ALL_KINDS {
        assert!(!empty.listening(kind));
    }
}

#[test]
fn dispatch_reaches_only_interested_enabled_children_in_order() {
    let mut agg = Aggregated::new(vec![
        Behavior::Scripted(Scripted::new(interested_in(EventKind::Mutation))),
        Behavior::Scripted(Scripted::new(interested_in(EventKind::Mutation)).enabled(false)),
        Behavior::Scripted(Scripted::new(interested_in(EventKind::Cleanup))),
        Behavior::Scripted(Scripted::new(interested_in(EventKind::Mutation))),
    ]);
    let env = connected_element();
    let cmds = agg.dispatch(EventKind::Mutation, &env);
    assert_eq!(cmds, Vec::<Command>::new());
    let logs: Vec<Vec<EventKind>> = agg
        .children
        .iter()
        .map(|b| match b {
            Behavior::Scripted(s) => s.log.clone(),
            _ => unreachable!(),
        })
        .collect();
    // Interested and enabled: invoked.  Disabled or uninterested: not.
    assert_eq!(logs[0], vec![EventKind::Mutation]);
    assert_eq!(logs[1], Vec::<EventKind>::new());
    assert_eq!(logs[2], Vec::<EventKind>::new());
    assert_eq!(logs[3], vec![EventKind::Mutation]);
}

#[test]
fn aggregate_is_enabled_while_any_child_is() {
    let agg = Aggregated::new(vec![
        Behavior::Scripted(Scripted::new(Interest::none()).enabled(false)),
        Behavior::Scripted(Scripted::new(Interest::none())),
    ]);
    assert!(agg.enabled());
    let dead = Aggregated::new(vec![
        Behavior::Scripted(Scripted::new(Interest::none()).enabled(false)),
    ]);
    assert!(!dead.enabled());
}

#[test]
fn scheduled_dispatch_fires_inline_at_zero_delay_and_defers_otherwise() {
    let mut agg = Aggregated::new(vec![
        Behavior::Scripted(Scripted::new(interested_in(EventKind::Enter))),
        Behavior::Scripted(Scripted::new(interested_in(EventKind::Enter)).enter_delay_ms(40)),
    ]);
    let env = connected_element();
    let cmds = agg.dispatch_scheduled(EventKind::Enter, &env);
    assert_eq!(
        cmds,
        vec![Command::ScheduleDelayed { child: 1, kind: EventKind::Enter, delay_ms: 40 }]
    );
    match &agg.children[0] {
        Behavior::Scripted(s) => assert_eq!(s.log, vec![EventKind::Enter]),
        _ => unreachable!(),
    }
    match &agg.children[1] {
        Behavior::Scripted(s) => assert_eq!(s.log, Vec::<EventKind>::new()),
        _ => unreachable!(),
    }
}

#[test]
fn scheduled_dispatch_drops_a_detached_zero_delay_child() {
    let mut agg = Aggregated::new(vec![
        Behavior::Scripted(Scripted::new(interested_in(EventKind::Enter))),
    ]);
    let detached = ElementSnapshot::blank();
    let cmds = agg.dispatch_scheduled(EventKind::Enter, &detached);
    assert_eq!(cmds, Vec::<Command>::new());
    match &agg.children[0] {
        Behavior::Scripted(s) => assert_eq!(s.log, Vec::<EventKind>::new()),
        _ => unreachable!(),
    }
}

#[test]
fn deferred_delivery_rechecks_liveness_at_resume_time() {
    let mut agg = Aggregated::new(vec![
        Behavior::Scripted(Scripted::new(interested_in(EventKind::Effect)).effect_delay_ms(10)),
    ]);
    let env = connected_element();
    let cmds = agg.dispatch_scheduled(EventKind::Effect, &env);
    assert_eq!(
        cmds,
        vec![Command::ScheduleDelayed { child: 0, kind: EventKind::Effect, delay_ms: 10 }]
    );
    // The element detaches while the delay runs: the call is dropped.
    let detached = ElementSnapshot::blank();
    let late = agg.deliver_delayed(0, EventKind::Effect, &detached);
    assert_eq!(late, Vec::<Command>::new());
    match &agg.children[0] {
        Behavior::Scripted(s) => assert_eq!(s.log, Vec::<EventKind>::new()),
        _ => unreachable!(),
    }
    // Still attached instead: the handler runs.
    let ok = agg.deliver_delayed(0, EventKind::Effect, &env);
    assert_eq!(ok, Vec::<Command>::new());
    match &agg.children[0] {
        Behavior::Scripted(s) => assert_eq!(s.log, vec![EventKind::Effect]),
        _ => unreachable!(),
    }
}

#[test]
fn track_reaches_exactly_the_update_pair_children() {
    let mut agg = Aggregated::new(vec![
        Behavior::Scripted(Scripted::new(interested_in(EventKind::ImmediateEffect))),
        Behavior::Scripted(Scripted::new(interested_in(EventKind::Effect)).enabled(false)),
        Behavior::Scripted(Scripted::new(interested_in(EventKind::Mutation))),
    ]);
    agg.track();
    agg.track();
    let counts: Vec<u64> = agg
        .children
        .iter()
        .map(|b| match b {
            Behavior::Scripted(s) => s.trackable.count,
            _ => unreachable!(),
        })
        .collect();
    // Tracking is unconditional per render pass, even for a disabled
    // child, but never reaches children outside the update pair.
    assert_eq!(counts, vec![2, 2, 0]);
}

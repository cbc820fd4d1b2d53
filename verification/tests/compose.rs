use animate_core::aggregated::Aggregated;
use animate_core::behavior::{Behavior, Scripted};
use animate_core::classes_in::In;
use animate_core::command::{AnimationSpec, Command, DurationChoice, KeyframeSpec};
use animate_core::compose::Composer;
use animate_core::events::{EventKind, Interest};
use animate_core::flip::{Duration as FlipDuration, Flip};
use animate_core::geometry::Rect;
use animate_core::snapshot::ElementSnapshot;
use animate_core::trackable::Trackable;

fn element_at(left: i64) -> ElementSnapshot {
    let mut e = ElementSnapshot::blank();
    e.connected = true;
    e.rect = Rect { left, top: 0, width: 50, height: 50 };
    e.transform_origin = "0px 0px".to_string();
    e
}

fn scripted_log(b: &Behavior) -> Vec<EventKind> {
    match b {
        Behavior::Scripted(s) => s.log.clone(),
        _ => unreachable!(),
    }
}

#[test]
fn subscriptions_cover_exactly_the_opted_in_kinds() {
    let mut update_only = Interest::none();
    update_only.effect = true;
    let mut mutated_only = Interest::none();
    mutated_only.mutation = true;
    let agg = Aggregated::new(vec![
        Behavior::Scripted(Scripted::new(update_only)),
        Behavior::Scripted(Scripted::new(mutated_only)),
    ]);
    let mut composer = Composer::new(agg);
    let (subs, cmds) = composer.compose(&element_at(0));
    assert_eq!(subs, vec![EventKind::Effect, EventKind::Mutation]);
    // Nothing opted into the before-entry hook, so nothing fired.
    assert_eq!(cmds, Vec::<Command>::new());
}

#[test]
fn before_entry_fires_synchronously_at_composition() {
    let mut before = Interest::none();
    before.before_enter = true;
    let agg = Aggregated::new(vec![Behavior::Scripted(Scripted::new(before))]);
    let mut composer = Composer::new(agg);
    let (subs, _) = composer.compose(&element_at(0));
    assert_eq!(subs, Vec::<EventKind>::new());
    assert_eq!(scripted_log(&composer.animation.children[0]), vec![EventKind::BeforeEnter]);
}

#[test]
fn dispatch_routes_each_event_to_its_own_audience() {
    // An aggregate of one behavior interested in updates only and one
    // interested in self-mutation only: a mutation reaches only the
    // latter, a recomputation reaches only the former, immediate step
    // first.
    let mut update_only = Interest::none();
    update_only.immediate_effect = true;
    update_only.effect = true;
    let mut mutated_only = Interest::none();
    mutated_only.mutation = true;
    let agg = Aggregated::new(vec![
        Behavior::Scripted(Scripted::new(update_only)),
        Behavior::Scripted(Scripted::new(mutated_only)),
    ]);
    let mut composer = Composer::new(agg);

    // A self-mutation: the first observer notification is an artifact
    // and is swallowed; the second is a real mutation.
    let env = element_at(0);
    let first = composer.mutation(&env);
    assert_eq!(first, Vec::<Command>::new());
    assert_eq!(scripted_log(&composer.animation.children[1]), Vec::<EventKind>::new());
    composer.mutation(&env);
    assert_eq!(scripted_log(&composer.animation.children[0]), Vec::<EventKind>::new());
    assert_eq!(scripted_log(&composer.animation.children[1]), vec![EventKind::Mutation]);

    // A reactive recomputation: the setup runs are swallowed, then the
    // immediate step precedes the deferred one by a tick.
    composer.immediate_update(&env);
    composer.update_pass();
    let cmds = composer.immediate_update(&env);
    assert_eq!(cmds, Vec::<Command>::new());
    assert_eq!(
        scripted_log(&composer.animation.children[0]),
        vec![EventKind::ImmediateEffect]
    );
    let pass = composer.update_pass();
    assert_eq!(pass, vec![Command::AwaitUpdateTick]);
    composer.update_tick(&env);
    assert_eq!(
        scripted_log(&composer.animation.children[0]),
        vec![EventKind::ImmediateEffect, EventKind::Effect]
    );
    // The mutation-only behavior never heard about any of it.
    assert_eq!(scripted_log(&composer.animation.children[1]), vec![EventKind::Mutation]);
}

#[test]
fn flip_and_fade_in_compose_on_one_element() {
    // Flip plus a class-driven fade-in on one element: insertion plays
    // the fade in, and a tracked change shifting the element from x=0
    // to x=100 makes the flip travel from -100px back to rest.
    let fade = In::default().source("opacity-0").target("opacity-100");
    let flip = Flip::watch(Trackable::new()).duration(FlipDuration::Fixed(0));
    let at_start = element_at(0);
    let agg = Aggregated::new(vec![
        Behavior::Flip(flip.init_animation(&at_start)),
        Behavior::ClassesIn(fade.init_animation()),
    ]);
    let mut composer = Composer::new(agg);

    let (subs, before) = composer.compose(&at_start);
    assert_eq!(
        subs,
        vec![EventKind::Enter, EventKind::ImmediateEffect, EventKind::Effect],
    );
    // The fade-in prepares the element before insertion.
    assert_eq!(
        before,
        vec![
            Command::SuppressTransitionDuration,
            Command::AddClasses(vec!["opacity-0".to_string()]),
        ]
    );

    // One frame after insertion the fade settles toward its target.
    let mut inserted = element_at(0);
    inserted.classes.classes = vec!["opacity-0".to_string()];
    let entered = composer.enter(&inserted);
    assert!(entered.iter().any(|c| *c == Command::AddClasses(vec!["opacity-100".to_string()])));

    // The tracked value changes and the element shifts to x=100.
    composer.immediate_update(&at_start);
    composer.update_pass();
    composer.immediate_update(&at_start);
    assert_eq!(composer.update_pass(), vec![Command::AwaitUpdateTick]);
    let cmds = composer.update_tick(&element_at(100));
    assert_eq!(
        cmds,
        vec![Command::StartAnimation(AnimationSpec {
            handle: 0,
            keyframes: KeyframeSpec::Translate { dx: -100, dy: 0 },
            duration: DurationChoice::Millis(0),
            delay_ms: 0,
        })]
    );
}

#[test]
fn parent_mutation_needs_a_connected_parent() {
    let mut parent_only = Interest::none();
    parent_only.parent_mutation = true;
    let agg = Aggregated::new(vec![Behavior::Scripted(Scripted::new(parent_only))]);
    let mut composer = Composer::new(agg);
    let mut env = element_at(0);
    composer.parent_mutation(&env);  // swallowed: first notification
    composer.parent_mutation(&env);  // dropped: parent not connected
    assert_eq!(scripted_log(&composer.animation.children[0]), Vec::<EventKind>::new());
    env.parent_connected = true;
    composer.parent_mutation(&env);
    assert_eq!(
        scripted_log(&composer.animation.children[0]),
        vec![EventKind::ParentMutation]
    );
}

#[test]
fn finished_signals_respect_liveness() {
    let mut finished = Interest::none();
    finished.enter_animations_finished = true;
    let agg = Aggregated::new(vec![Behavior::Scripted(Scripted::new(finished))]);
    let mut composer = Composer::new(agg);
    let mut env = element_at(0);
    env.connected = false;
    composer.animations_finished(EventKind::EnterAnimationsFinished, &env);
    assert_eq!(scripted_log(&composer.animation.children[0]), Vec::<EventKind>::new());
    env.connected = true;
    composer.animations_finished(EventKind::EnterAnimationsFinished, &env);
    assert_eq!(
        scripted_log(&composer.animation.children[0]),
        vec![EventKind::EnterAnimationsFinished]
    );
}

#[test]
fn teardown_is_delivered_even_when_detached() {
    let mut cleanup = Interest::none();
    cleanup.cleanup = true;
    let agg = Aggregated::new(vec![Behavior::Scripted(Scripted::new(cleanup))]);
    let mut composer = Composer::new(agg);
    let mut env = element_at(0);
    env.connected = false;
    composer.cleanup(&env);
    assert_eq!(scripted_log(&composer.animation.children[0]), vec![EventKind::Cleanup]);
}

use animate_core::behavior::{Behavior, Scripted};
use animate_core::events::{EventKind, Interest};
use animate_core::listeners::{
    BeforeEnter, Cleanup, Effect, Enter, EnterAnimationsFinished, ImmediateEffect, Mutation,
    MutationAnimationsFinished, ParentMutation, ParentMutationAnimationsFinished,
};
use animate_core::snapshot::ElementSnapshot;

fn all_interest() -> Interest {
    Interest {
        before_enter: true,
        enter: true,
        immediate_effect: true,
        effect: true,
        mutation: true,
        parent_mutation: true,
        enter_animations_finished: true,
        mutation_animations_finished: true,
        parent_mutation_animations_finished: true,
        cleanup: true,
    }
}

#[test]
fn the_listener_interface_reports_every_declared_interest() {
    let b = Behavior::Scripted(Scripted::new(all_interest()));
    assert!(b.listening_for_before_enter());
    assert!(b.listening_for_enter());
    assert!(b.listening_for_immediate_effect());
    assert!(b.listening_for_effect());
    assert!(b.listening_for_mutation());
    assert!(b.listening_for_parent_mutation());
    assert!(b.listening_for_enter_animations_finished());
    assert!(b.listening_for_mutation_animations_finished());
    assert!(b.listening_for_parent_mutation_animations_finished());
    assert!(b.listening_for_cleanup());
    let silent = Behavior::Scripted(Scripted::new(Interest::none()));
    assert!(!silent.listening_for_before_enter());
    assert!(!silent.listening_for_cleanup());
}

#[test]
fn the_listener_interface_reports_the_declared_delays() {
    let b = Behavior::Scripted(Scripted::new(all_interest()).enter_delay_ms(7).effect_delay_ms(9));
    assert_eq!(b.enter_delay(), 7);
    assert_eq!(b.effect_delay(), 9);
}

#[test]
fn handlers_reached_through_the_interface_are_delivered() {
    let mut b = Behavior::Scripted(Scripted::new(all_interest()));
    let env = ElementSnapshot::blank();
    b.on_before_enter(&env);
    b.on_enter(&env);
    b.on_immediate_effect(&env);
    b.on_effect(&env);
    b.on_mutation(&env);
    b.on_parent_mutation(&env);
    b.on_enter_animations_finished(&env);
    b.on_mutation_animations_finished(&env);
    b.on_parent_mutation_animations_finished(&env);
    b.on_cleanup(&env);
    match b {
        Behavior::Scripted(s) => assert_eq!(
            s.log,
            vec![
                EventKind::BeforeEnter,
                EventKind::Enter,
                EventKind::ImmediateEffect,
                EventKind::Effect,
                EventKind::Mutation,
                EventKind::ParentMutation,
                EventKind::EnterAnimationsFinished,
                EventKind::MutationAnimationsFinished,
                EventKind::ParentMutationAnimationsFinished,
                EventKind::Cleanup,
            ]
        ),
        _ => unreachable!(),
    }
}

//! The per-event listener interface.
//!
//! Every lifecycle event pairs a handler with an "am I interested"
//! predicate; the composer never wires an uninterested behavior to an
//! underlying source.  Handlers read the element snapshot and return the
//! commands they want performed.

use vstd::prelude::*;

use crate::command::Command;
use crate::snapshot::ElementSnapshot;

verus! {

pub trait BeforeEnter {
    fn listening_for_before_enter(&self) -> bool;

    fn on_before_enter(&mut self, element: &ElementSnapshot) -> Vec<Command>;
}

pub trait Enter {
    fn listening_for_enter(&self) -> bool;

    fn enter_delay(&self) -> u64;

    fn on_enter(&mut self, element: &ElementSnapshot) -> Vec<Command>;
}

pub trait ImmediateEffect {
    fn listening_for_immediate_effect(&self) -> bool;

    fn on_immediate_effect(&mut self, element: &ElementSnapshot) -> Vec<Command>;
}

pub trait Effect {
    fn listening_for_effect(&self) -> bool;

    fn effect_delay(&self) -> u64;

    fn on_effect(&mut self, element: &ElementSnapshot) -> Vec<Command>;
}

pub trait Mutation {
    fn listening_for_mutation(&self) -> bool;

    fn on_mutation(&mut self, element: &ElementSnapshot) -> Vec<Command>;
}

pub trait ParentMutation {
    fn listening_for_parent_mutation(&self) -> bool;

    fn on_parent_mutation(&mut self, element: &ElementSnapshot) -> Vec<Command>;
}

pub trait EnterAnimationsFinished {
    fn listening_for_enter_animations_finished(&self) -> bool;

    fn on_enter_animations_finished(&mut self, element: &ElementSnapshot) -> Vec<Command>;
}

pub trait MutationAnimationsFinished {
    fn listening_for_mutation_animations_finished(&self) -> bool;

    fn on_mutation_animations_finished(&mut self, element: &ElementSnapshot) -> Vec<Command>;
}

pub trait ParentMutationAnimationsFinished {
    fn listening_for_parent_mutation_animations_finished(&self) -> bool;

    fn on_parent_mutation_animations_finished(&mut self, element: &ElementSnapshot) -> Vec<
        Command,
    >;
}

pub trait Cleanup {
    fn listening_for_cleanup(&self) -> bool;

    fn on_cleanup(&mut self, element: &ElementSnapshot) -> Vec<Command>;
}

} // verus!

//! A lifecycle coordination engine for element animations.
//!
//! An element acquires one or more animation behaviors that react to the
//! element's lifecycle: insertion into the visible tree, reactive updates,
//! structural mutation of itself or its parent, and removal.  The engine is
//! expressed over plain values: behaviors turn lifecycle events and element
//! snapshots into commands, and a thin host layer performs the commands
//! against the real tree, reports events back, and runs timers and frames.

pub mod aggregated;
pub mod behavior;
pub mod classes;
pub mod classes_in;
pub mod classes_out;
pub mod command;
pub mod compose;
pub mod events;
pub mod fade_out;
pub mod flip;
pub mod geometry;
pub mod initial;
pub mod listeners;
pub mod origin;
pub mod resize;
pub mod scheduler;
pub mod slot;
pub mod snapshot;
pub mod trackable;
pub mod transition_duration;
pub mod zombie;
pub mod zoom;

pub use events::EventKind;

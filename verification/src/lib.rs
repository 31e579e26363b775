//! Supervision of asynchronous tasks: the decisions, stated and proved.
//!
//! A supervisor accepts named tasks, runs each as an actor, retries, cancels, and removes them, and
//! shuts everything down within a grace period. This library holds what such a supervisor decides:
//!
//! - [`registry`]: membership, admission, removal claims, terminal commits, and the reaper of
//!   force-aborted attempts;
//! - [`runtime`]: command admission, ownership of user values, startup, static runs, shutdown, and
//!   the event relay;
//! - [`runner`]: the classification of one task attempt;
//! - [`supervisor`], [`config`], [`task_defaults`], [`tasks`], [`policies`]: settings;
//! - [`error`], [`events`], [`event`], [`outcome`], [`reasons`]: what callers and observers see.
//!
//! A decision takes its state from one value to the next and lists, in order, the effects that the
//! surrounding runtime performs: replies, events, spawns, aborts, wake-ups. Waiting, sending, and
//! destroying user values happen outside.

pub mod channel;
pub mod config;
pub mod convert;
pub mod deferred_drop;
pub mod duration;
pub mod error;
pub mod event;
pub mod events;
pub mod identity;
pub mod maps;
pub mod order;
pub mod outcome;
pub mod policies;
pub mod reasons;
pub mod registry;
pub mod runner;
pub mod runtime;
pub mod search;
pub mod supervisor;
pub mod task_defaults;
pub mod task_metadata;
pub mod tasks;
pub mod text;

//! Startup, management, and shutdown of one supervisor.
//!
//! ```text
//! Supervisor / SupervisorHandle
//!              ▼
//!       SupervisorCore
//!          ├── management ──► bounded command queue ────────► Registry
//!          ├── lifecycle ───► runtime workers and listeners
//!          ├── events ──────► event relay ──────────────────► subscriber queues
//!          └── shutdown ────► fence ────────────────────────► drain and worker joins
//! ```
//!
//! The registry owns task membership and management decisions. Those decisions return through
//! direct reply channels. Events never drive runtime state.

use vstd::prelude::*;

pub mod add;
pub mod bus;
pub mod cancel;
pub mod cleanup;
pub mod command_gate;
pub mod event_relay;
pub mod laws;
pub mod lifecycle;
pub mod operation_laws;
pub mod ownership;
pub mod remove;
pub mod shutdown;
pub mod static_run;

use crate::config::SupervisorConfig;
use crate::deferred_drop::{DropDomain, OwnershipSnapshot};
use crate::task_defaults::TaskDefaults;
use shutdown::{ShutdownCoordinator, ShutdownView};

verus! {

/// Builder-selected runtime settings after construction.
#[derive(Clone, Copy, Debug)]
pub struct CoreSettings {
    /// Runtime limits, queue sizes, and shutdown behavior.
    pub runtime: SupervisorConfig,
    /// Defaults applied when the registry accepts a task.
    pub task_defaults: TaskDefaults,
}

impl CoreSettings {
    /// Freezes both settings in one core-owned value.
    pub fn new(runtime: SupervisorConfig, task_defaults: TaskDefaults) -> (settings: CoreSettings)
        ensures
            settings == (CoreSettings { runtime, task_defaults }),
    {
        CoreSettings { runtime, task_defaults }
    }
}

/// Ordering state shared by every runtime component.
#[derive(Debug)]
pub struct SupervisorCore {
    pub(crate) settings: CoreSettings,
    pub(crate) drop_domain: DropDomain,
    pub(crate) subscriber_slots: usize,
    pub(crate) started: bool,
    pub(crate) running: bool,
    pub(crate) shutting_down: bool,
    pub(crate) shutdown: ShutdownCoordinator,
}

/// Contents of a [`SupervisorCore`].
pub struct CoreView {
    /// Runtime settings fixed by the builder.
    pub settings: CoreSettings,
    /// Budget of user-owned lifetimes.
    pub ownership: OwnershipSnapshot,
    /// Slots of that budget held by subscribers.
    pub subscriber_slots: usize,
    /// Whether every configured worker was launched.
    pub started: bool,
    /// Whether the single static-run lifecycle is owned or committed.
    pub running: bool,
    /// Whether shutdown closed management admission.
    pub shutting_down: bool,
    /// Shared shutdown operation and its cached outcome.
    pub shutdown: ShutdownView,
}

impl View for SupervisorCore {
    type V = CoreView;

    closed spec fn view(&self) -> CoreView {
        CoreView {
            settings: self.settings,
            ownership: self.drop_domain@,
            subscriber_slots: self.subscriber_slots,
            started: self.started,
            running: self.running,
            shutting_down: self.shutting_down,
            shutdown: self.shutdown@,
        }
    }
}

impl CoreView {
    /// What every operation keeps: a started shutdown has closed admission, and an installed
    /// operation has started.
    pub open spec fn valid(self) -> bool {
        &&& self.shutdown.started ==> self.shutting_down
        &&& self.shutdown.installed ==> self.shutdown.started
        &&& self.shutdown.outcome is Some ==> self.shutdown.installed
    }
}

impl CoreView {
    /// Whether a later state keeps what cannot be undone: settings stay, launched workers stay
    /// launched, closed admission stays closed, a shutdown that has started or has an owner keeps
    /// it, and its cached result stays the same.
    pub open spec fn only_forward(self, later: CoreView) -> bool {
        &&& later.settings == self.settings
        &&& later.subscriber_slots == self.subscriber_slots
        &&& self.started ==> later.started
        &&& self.shutting_down ==> later.shutting_down
        &&& self.shutdown.started ==> later.shutdown.started
        &&& self.shutdown.installed ==> later.shutdown.installed
        &&& self.shutdown.outcome is Some ==> later.shutdown.outcome == self.shutdown.outcome
    }
}

/// Shutdown is terminal: whatever operations follow, one after the other, admission stays closed,
/// the shutdown stays owned, and every later caller is given the result that the first one got.
pub proof fn law_shutdown_is_terminal(first: CoreView, second: CoreView, third: CoreView)
    requires
        first.only_forward(second),
        second.only_forward(third),
    ensures
        first.only_forward(third),
        first.shutting_down ==> third.shutting_down,
        first.shutdown.installed ==> third.shutdown.installed,
        first.shutdown.outcome is Some ==> third.shutdown.outcome == first.shutdown.outcome,
{
}

impl SupervisorCore {
    /// Stopped core with the given settings. Subscribers hold their slots from the start.
    pub fn new_internal(
        settings: CoreSettings,
        drop_domain: DropDomain,
        subscriber_slots: usize,
    ) -> (core: SupervisorCore)
        ensures
            core@ == (CoreView {
                settings,
                ownership: drop_domain@,
                subscriber_slots,
                started: false,
                running: false,
                shutting_down: false,
                shutdown: ShutdownView { started: false, installed: false, outcome: None },
            }),
            core@.valid(),
    {
        SupervisorCore {
            settings,
            drop_domain,
            subscriber_slots,
            started: false,
            running: false,
            shutting_down: false,
            shutdown: ShutdownCoordinator::new(),
        }
    }

    /// Whether the command-admission fence has closed.
    pub fn is_shutting_down(&self) -> (closed: bool)
        ensures
            closed == self@.shutting_down,
    {
        self.shutting_down
    }

    /// Builder-selected runtime configuration.
    pub fn runtime_config(&self) -> (config: &SupervisorConfig)
        ensures
            *config == self@.settings.runtime,
    {
        &self.settings.runtime
    }

    /// Defaults used at registry admission.
    pub fn task_defaults(&self) -> (defaults: &TaskDefaults)
        ensures
            *defaults == self@.settings.task_defaults,
    {
        &self.settings.task_defaults
    }

    /// State of the cleanup ownership budget.
    pub fn ownership_snapshot(&self) -> (snapshot: OwnershipSnapshot)
        ensures
            snapshot == self@.ownership,
    {
        self.drop_domain.snapshot()
    }
}

} // verus!

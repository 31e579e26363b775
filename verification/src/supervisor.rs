//! Public owner and lifecycle entry points of one runtime.
//!
//! ```text
//! stopped Supervisor
//!      ├── serve ──► dynamic management
//!      └── run* ───► initial batch ─────► registry empty or stop trigger
//!                                             ▼
//!                                      shutdown cleanup
//! ```
//!
//! Workers start once. The static run lifecycle can be committed once and may be used after
//! `serve`. Shutdown is terminal.

use vstd::prelude::*;

use crate::channel::runtime_probed;
use crate::config::{limit_of, limit_view, SupervisorConfig};
use crate::deferred_drop::{DropDomain, OwnershipSnapshot, OWNERSHIP_RESOURCE};
use crate::error::{BuildError, RuntimeError};
use crate::runtime::lifecycle::{start_plan, Startup};
use crate::runtime::shutdown::ShutdownView;
use crate::runtime::{CoreSettings, CoreView, SupervisorCore};
use crate::task_defaults::TaskDefaults;

verus! {

/// A subscriber that the runtime parks under a ticket.
#[derive(Clone, Copy, Debug, PartialEq, Eq, Structural)]
pub struct Subscriber {
    /// Ticket of the subscriber.
    pub ticket: u64,
}

/// Settings of a supervisor that is not built yet.
#[derive(Debug)]
#[must_use]
pub struct SupervisorBuilder {
    /// Runtime configuration.
    pub config: SupervisorConfig,
    /// Defaults applied when the registry accepts a task.
    pub task_defaults: TaskDefaults,
    /// Subscribers, each of which holds one slot of the ownership budget.
    pub subscribers: Vec<Subscriber>,
}

/// Whether an ownership budget can admit that many subscribers.
pub open spec fn fits_budget(config: SupervisorConfig, subscribers: nat) -> bool {
    limit_view(config@.ownership_capacity) matches Some(limit) ==> subscribers <= limit
}

impl SupervisorBuilder {
    /// Whether the ownership budget can admit every subscriber.
    pub open spec fn fits(self) -> bool {
        fits_budget(self.config, self.subscribers@.len())
    }

    /// Builder with default task settings and no subscribers.
    pub fn new(config: SupervisorConfig) -> (builder: SupervisorBuilder)
        ensures
            builder.config == config,
            builder.task_defaults@.built_in(),
            builder.subscribers@.len() == 0,
    {
        SupervisorBuilder { config, task_defaults: TaskDefaults::default(), subscribers: Vec::new() }
    }

    /// Replaces the subscribers.
    pub fn with_subscribers(self, subscribers: Vec<Subscriber>) -> (builder: SupervisorBuilder)
        ensures
            builder == (SupervisorBuilder { subscribers, ..self }),
    {
        SupervisorBuilder { subscribers, ..self }
    }

    /// Replaces the task defaults.
    pub fn with_task_defaults(self, task_defaults: TaskDefaults) -> (builder: SupervisorBuilder)
        ensures
            builder == (SupervisorBuilder { task_defaults, ..self }),
    {
        SupervisorBuilder { task_defaults, ..self }
    }

    /// Stopped supervisor with these settings.
    ///
    /// # Errors
    ///
    /// [`BuildError::ResourceLimitReached`] when the ownership budget cannot admit every
    /// subscriber.
    pub fn try_build(self) -> (built: Result<Supervisor, BuildError>)
        ensures
            if self.fits() {
                built matches Ok(supervisor) && supervisor@ == stopped(self)
            } else {
                built == Err::<Supervisor, _>(
                    BuildError::ResourceLimitReached {
                        resource: OWNERSHIP_RESOURCE,
                        limit: limit_view(self.config@.ownership_capacity)->0,
                    },
                )
            },
    {
        if let Some(limit) = limit_of(self.config.ownership_capacity()) {
            if self.subscribers.len() > limit {
                return Err(
                    BuildError::ResourceLimitReached { resource: OWNERSHIP_RESOURCE, limit },
                );
            }
        }
        Ok(self.assemble())
    }

    /// Stopped supervisor whose subscribers hold their slots.
    fn assemble(self) -> (supervisor: Supervisor)
        requires
            self.fits(),
        ensures
            supervisor@ == stopped(self),
            supervisor@.valid(),
    {
        let slots = self.subscribers.len();
        let mut domain = DropDomain::new(limit_of(self.config.ownership_capacity()));
        let _ = domain.try_reserve_many(slots);
        let settings = CoreSettings::new(self.config, self.task_defaults);
        Supervisor { core: SupervisorCore::new_internal(settings, domain, slots) }
    }
}

/// Core of a supervisor that was just built.
pub open spec fn stopped(builder: SupervisorBuilder) -> CoreView {
    CoreView {
        settings: CoreSettings { runtime: builder.config, task_defaults: builder.task_defaults },
        ownership: OwnershipSnapshot {
            capacity: limit_view(builder.config@.ownership_capacity),
            charged: builder.subscribers@.len() as usize,
            retired: 0,
        },
        subscriber_slots: builder.subscribers@.len() as usize,
        started: false,
        running: false,
        shutting_down: false,
        shutdown: ShutdownView { started: false, installed: false, outcome: None },
    }
}

/// Public owner and startup entry point for one runtime.
#[derive(Debug)]
pub struct Supervisor {
    core: SupervisorCore,
}

impl View for Supervisor {
    type V = CoreView;

    closed spec fn view(&self) -> CoreView {
        self.core@
    }
}

impl Supervisor {
    /// Stopped supervisor with runtime configuration and subscribers.
    ///
    /// Task specs use the default task settings. Use [`builder`](Self::builder) to replace those.
    /// The ownership budget must admit every subscriber; [`SupervisorBuilder::try_build`] returns
    /// an error where it does not.
    pub fn new(cfg: SupervisorConfig, subscribers: Vec<Subscriber>) -> (supervisor: Supervisor)
        requires
            fits_budget(cfg, subscribers@.len()),
        ensures
            supervisor@.settings.runtime == cfg,
            supervisor@.settings.task_defaults@.built_in(),
            supervisor@ == (CoreView {
                settings: supervisor@.settings,
                ownership: OwnershipSnapshot {
                    capacity: limit_view(cfg@.ownership_capacity),
                    charged: subscribers@.len() as usize,
                    retired: 0,
                },
                subscriber_slots: subscribers@.len() as usize,
                started: false,
                running: false,
                shutting_down: false,
                shutdown: ShutdownView { started: false, installed: false, outcome: None },
            }),
            supervisor@.valid(),
    {
        Supervisor::builder(cfg).with_subscribers(subscribers).assemble()
    }

    /// Builder for custom supervisor settings.
    pub fn builder(cfg: SupervisorConfig) -> (builder: SupervisorBuilder)
        ensures
            builder.config == cfg,
            builder.task_defaults@.built_in(),
            builder.subscribers@.len() == 0,
    {
        SupervisorBuilder::new(cfg)
    }

    /// Dynamic management: says which workers have to be launched, if any.
    ///
    /// May be called more than once; workers start once. Failed startup may be retried.
    ///
    /// # Errors
    ///
    /// [`RuntimeError::TokioRuntimeUnavailable`] when first startup is requested outside a Tokio
    /// runtime. Where it is requested is up to the caller.
    pub fn serve(&self) -> (startup: Result<Startup, RuntimeError>)
        ensures
            exists|active: bool| #[trigger]
                runtime_probed(active) && start_plan(self@, active, startup),
    {
        self.core.start()
    }

    /// Runtime configuration.
    #[must_use]
    pub fn runtime_config(&self) -> (config: &SupervisorConfig)
        ensures
            *config == self@.settings.runtime,
    {
        self.core.runtime_config()
    }

    /// State of the cleanup ownership budget.
    #[must_use]
    pub fn ownership_snapshot(&self) -> (snapshot: OwnershipSnapshot)
        ensures
            snapshot == self@.ownership,
    {
        self.core.ownership_snapshot()
    }

    /// Task defaults.
    #[must_use]
    pub fn task_defaults(&self) -> (defaults: &TaskDefaults)
        ensures
            *defaults == self@.settings.task_defaults,
    {
        self.core.task_defaults()
    }

    /// Shared runtime core.
    pub fn owner(&mut self) -> (core: &mut SupervisorCore)
        ensures
            core@ == old(self)@,
            final(self)@ == final(core)@,
    {
        &mut self.core
    }
}

/// A supervisor is built exactly when its budget has a slot for every subscriber, tells its limit
/// where it has not, and is then stopped with its own settings.
pub proof fn law_a_supervisor_is_built_where_its_budget_allows(
    builder: SupervisorBuilder,
    built: Result<Supervisor, BuildError>,
    capacity: usize,
)
    requires
        call_ensures(SupervisorBuilder::try_build, (builder,), built),
    ensures
        limit_view(builder.config@.ownership_capacity) is None ==> built is Ok,
        limit_view(builder.config@.ownership_capacity) == Some(capacity) ==> (built is Ok
            <==> builder.subscribers@.len() <= capacity) && (built is Err ==> built->Err_0 == (
        BuildError::ResourceLimitReached { resource: "owned_user_lifetimes", limit: capacity })),
        built matches Ok(supervisor) ==> supervisor@.settings.runtime == builder.config
            && supervisor@.settings.task_defaults == builder.task_defaults && !supervisor@.started
            && !supervisor@.running && !supervisor@.shutting_down
            && supervisor@.ownership.retired == 0,
{
}

} // verus!

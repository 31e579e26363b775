//! Startup of the workers that make a wired supervisor operational.
//!
//! Startup is idempotent after success. The workers start in this order: subscriber callbacks, the
//! event relay where the bus is enabled, the registry listener with its reaper, the optional
//! controller. Startup becomes visible only after every configured worker is launched.

use vstd::prelude::*;

use super::shutdown::result_view;
use super::{CoreView, SupervisorCore};
use crate::channel::{runtime_probed, tokio_runtime_active};
use crate::error::{RuntimeError, RuntimeErrorView};

verus! {

/// One worker group, in startup order.
#[derive(Clone, Copy, Debug, PartialEq, Eq, Structural)]
pub enum Worker {
    /// Subscriber callback executor. It alone can fail to start.
    Subscribers,
    /// Event relay.
    Relay,
    /// Registry listener and reaper.
    Registry,
    /// Controller, where there is one.
    Controller,
}

/// What startup has to do.
#[derive(Debug)]
pub enum Startup {
    /// Every worker runs already.
    Running,
    /// Launch these workers, in order.
    Launch(Vec<Worker>),
}

/// Workers of a supervisor, in startup order.
pub open spec fn workers(bus_enabled: bool) -> Seq<Worker> {
    if bus_enabled {
        seq![Worker::Subscribers, Worker::Relay, Worker::Registry, Worker::Controller]
    } else {
        seq![Worker::Subscribers, Worker::Registry, Worker::Controller]
    }
}

impl CoreView {
    /// Whether events have someone to go to.
    pub open spec fn bus_enabled(self) -> bool {
        self.subscriber_slots > 0
    }
}

/// Whether startup has this to do, given whether a Tokio runtime is active.
pub open spec fn start_plan(
    core: CoreView,
    runtime_active: bool,
    startup: Result<Startup, RuntimeError>,
) -> bool {
    if core.started {
        startup == Ok::<Startup, RuntimeError>(Startup::Running)
    } else if !runtime_active {
        startup matches Err(error) && error@ == RuntimeErrorView::TokioRuntimeUnavailable
    } else {
        startup matches Ok(Startup::Launch(list)) && list@ == workers(core.bus_enabled())
    }
}

impl SupervisorCore {
    /// Decides what startup has to do.
    ///
    /// # Errors
    ///
    /// [`RuntimeError::TokioRuntimeUnavailable`] outside a Tokio runtime, unless the workers run
    /// already.
    pub fn plan_start(&self, runtime_active: bool) -> (startup: Result<Startup, RuntimeError>)
        ensures
            start_plan(self@, runtime_active, startup),
    {
        if self.started {
            return Ok(Startup::Running);
        }
        if !runtime_active {
            return Err(RuntimeError::TokioRuntimeUnavailable);
        }
        let mut list: Vec<Worker> = Vec::new();
        list.push(Worker::Subscribers);
        if self.subscriber_slots > 0 {
            list.push(Worker::Relay);
        }
        list.push(Worker::Registry);
        list.push(Worker::Controller);
        proof {
            assert(list@ =~= workers(self@.bus_enabled()));
        }
        Ok(Startup::Launch(list))
    }

    /// Decides what startup has to do, from where it is called.
    ///
    /// Whether a Tokio runtime is active is up to the caller's context;
    /// [`plan_start`](Self::plan_start) says what follows.
    pub fn start(&self) -> (startup: Result<Startup, RuntimeError>)
        ensures
            exists|active: bool| #[trigger]
                runtime_probed(active) && start_plan(self@, active, startup),
    {
        let active = tokio_runtime_active();
        proof {
            assert(runtime_probed(active));
        }
        self.plan_start(active)
    }

    /// Records how the launch went.
    ///
    /// A subscriber executor that could not start leaves the supervisor stopped.
    pub fn finish_start(&mut self, subscribers: Result<(), RuntimeError>) -> (started: Result<
        (),
        RuntimeError,
    >)
        requires
            old(self)@.valid(),
        ensures
            final(self)@.valid(),
            old(self)@.only_forward(final(self)@),
            result_view(started) == result_view(subscribers),
            final(self)@ == (if subscribers is Ok {
                CoreView { started: true, ..old(self)@ }
            } else {
                old(self)@
            }),
    {
        match subscribers {
            Ok(()) => {
                self.started = true;
                Ok(())
            },
            Err(error) => Err(error),
        }
    }
}

} // verus!

//! The single-use lifecycle behind the static run methods.
//!
//! A non-empty initial task set reserves cleanup ownership as one batch and reaches the registry
//! in one atomic command. After admission the run joins shared shutdown when its trigger wins or
//! the registry becomes empty.
//!
//! Failures before the explicit commit release the claim. After that commit no later static run
//! can own the lifecycle.

use vstd::prelude::*;

use super::ownership::{admission_error, ownership_admission_error};
use super::shutdown::ShutdownTrigger;
use super::{CoreView, SupervisorCore};
use crate::channel::{runtime_probed, tokio_runtime_active};
use crate::config::limit_view;
use crate::deferred_drop::{DropAdmissionError, OWNERSHIP_RESOURCE};
use crate::error::{RuntimeError, RuntimeErrorView};
use crate::registry::admission::REGISTERED_TASKS;

verus! {

/// Claim of the static-run lifecycle that rolls back unless it is committed.
#[derive(Debug)]
pub struct StaticRunClaim {
    committed: bool,
}

impl StaticRunClaim {
    /// Whether the claim became permanent.
    pub closed spec fn is_committed(self) -> bool {
        self.committed
    }

    /// Claims the lifecycle without committing it.
    ///
    /// # Errors
    ///
    /// [`RuntimeError::AlreadyRunning`] when another call owns the claim or an earlier call
    /// committed it.
    pub fn acquire(core: &mut SupervisorCore) -> (claim: Result<StaticRunClaim, RuntimeError>)
        requires
            old(core)@.valid(),
        ensures
            final(core)@.valid(),
            old(core)@.only_forward(final(core)@),
            if old(core)@.running {
                &&& claim matches Err(error) && error@ == RuntimeErrorView::AlreadyRunning
                &&& final(core)@ == old(core)@
            } else {
                &&& claim matches Ok(claim) && !claim.is_committed()
                &&& final(core)@ == (CoreView { running: true, ..old(core)@ })
            },
    {
        if core.running {
            return Err(RuntimeError::AlreadyRunning);
        }
        core.running = true;
        Ok(StaticRunClaim { committed: false })
    }

    /// Makes this lifecycle claim permanent.
    pub fn commit(self) -> (claim: StaticRunClaim)
        ensures
            claim.is_committed(),
    {
        StaticRunClaim { committed: true }
    }

    /// Gives the claim up: it is released only when it was never committed.
    pub fn release(self, core: &mut SupervisorCore)
        requires
            old(core)@.valid(),
        ensures
            final(core)@.valid(),
            old(core)@.only_forward(final(core)@),
            final(core)@ == (if self.is_committed() {
                old(core)@
            } else {
                CoreView { running: false, ..old(core)@ }
            }),
    {
        if !self.committed {
            core.running = false;
        }
    }
}

/// What a static run does next.
#[derive(Debug)]
pub enum RunStep {
    /// Start the workers of a run without tasks.
    StartEmpty(StaticRunClaim),
    /// Look once whether shutdown has started or the caller's trigger is ready.
    PollTrigger(StaticRunClaim),
    /// Start the workers because the caller's trigger won.
    StartForTrigger(StaticRunClaim),
    /// Reserve cleanup ownership for the whole batch.
    Reserve(StaticRunClaim),
    /// Start the workers for the batch.
    StartBatch(StaticRunClaim),
    /// Send the batch to the registry.
    Enqueue,
    /// Wait for shutdown, the caller's trigger, or an empty registry.
    Drive,
    /// Join the shutdown that has started.
    JoinStarted,
    /// Join the shutdown that has started, and give the claim up when it has finished.
    JoinStartedThenRelease(StaticRunClaim),
    /// Enter shared shutdown with the caller's trigger.
    JoinTrigger,
}

/// Resource error of a static run.
pub open spec fn limit_reached(resource: Seq<char>, limit: usize) -> RuntimeErrorView {
    RuntimeErrorView::ResourceLimitReached { resource, limit }
}

impl CoreView {
    /// Registration limit.
    pub open spec fn registered_limit(self) -> Option<usize> {
        limit_view(self.settings.runtime@.max_registered_tasks)
    }

    /// Whether a run of that many tasks can never fit beside the subscribers.
    ///
    /// An unlimited budget always has room.
    pub open spec fn run_oversized(self, tasks: nat) -> bool {
        self.ownership.capacity matches Some(capacity) && tasks > 0 && tasks
            + self.subscriber_slots > capacity
    }

    /// Why a run of that many tasks is refused before anything starts, if it is.
    pub open spec fn run_refusal(self, tasks: nat) -> Option<RuntimeErrorView> {
        if self.running {
            Some(RuntimeErrorView::AlreadyRunning)
        } else if self.registered_limit() is Some && tasks > self.registered_limit()->0 {
            Some(limit_reached(REGISTERED_TASKS@, self.registered_limit()->0))
        } else if self.run_oversized(tasks) {
            Some(limit_reached(OWNERSHIP_RESOURCE@, self.ownership.capacity->0))
        } else {
            None
        }
    }
}

/// Whether the calling thread told this about its Tokio runtime and the destructor workers, started
/// only with one, gave `workers`.
pub open spec fn started_where_active<F: FnOnce() -> Result<(), std::io::Error>>(
    start: F,
    active: bool,
    workers: Result<(), std::io::Error>,
) -> bool {
    &&& runtime_probed(active)
    &&& if active {
        start.ensures((), workers)
    } else {
        workers is Ok
    }
}

/// Whether a batch was reserved with this result, given where the run is polled and whether the
/// destructor workers started.
pub open spec fn batch_reserved(
    before: CoreView,
    claim: StaticRunClaim,
    tasks: usize,
    runtime_active: bool,
    workers: Result<(), std::io::Error>,
    after: CoreView,
    next: Result<RunStep, RuntimeError>,
) -> bool {
    let released = CoreView { running: false, ..before };
    if !runtime_active {
        &&& next matches Err(error) && error@
            == RuntimeErrorView::TokioRuntimeUnavailable
        &&& after == released
    } else {
        match workers {
            Err(source) => {
                &&& next matches Err(error) && error@ == admission_error(
                    DropAdmissionError::Start { source },
                )
                &&& after == released
            },
            Ok(()) => if !before.ownership.admits(tasks as nat) {
                &&& next matches Err(error) && error@ == admission_error(
                    before.capacity_error(),
                )
                &&& after == released
            } else {
                &&& after == before.charged_by(tasks as nat)
                &&& if before.shutting_down {
                    next matches Ok(RunStep::JoinStarted)
                } else {
                    next == Ok::<RunStep, RuntimeError>(RunStep::StartBatch(claim))
                }
            },
        }
    }
}

impl SupervisorCore {
    /// Begins a static run: claims the lifecycle and checks what can be checked beforehand.
    ///
    /// A refused run leaves the lifecycle available. A run without tasks goes straight to the
    /// workers, or joins a shutdown that has closed admission.
    pub fn begin_run(&mut self, tasks: usize) -> (begun: Result<RunStep, RuntimeError>)
        requires
            old(self)@.valid(),
        ensures
            final(self)@.valid(),
            old(self)@.only_forward(final(self)@),
            match old(self)@.run_refusal(tasks as nat) {
                Some(refusal) => {
                    &&& begun matches Err(error) && error@ == refusal
                    &&& final(self)@ == old(self)@
                },
                None => {
                    &&& final(self)@ == (CoreView { running: true, ..old(self)@ })
                    &&& if tasks > 0 {
                        begun matches Ok(RunStep::PollTrigger(claim)) && !claim.is_committed()
                    } else if old(self)@.shutting_down {
                        begun matches Ok(RunStep::JoinStarted)
                    } else {
                        begun matches Ok(RunStep::StartEmpty(claim)) && !claim.is_committed()
                    }
                },
            },
    {
        let claim = match StaticRunClaim::acquire(self) {
            Err(error) => {
                return Err(error);
            },
            Ok(claim) => claim,
        };
        if let Some(limit) = self.settings.runtime.max_registered_tasks() {
            if tasks > limit.get() {
                claim.release(self);
                return Err(
                    RuntimeError::ResourceLimitReached {
                        resource: REGISTERED_TASKS,
                        limit: limit.get(),
                    },
                );
            }
        }
        if let Some(capacity) = self.drop_domain.capacity() {
            if tasks > capacity.saturating_sub(self.subscriber_slots) {
                claim.release(self);
                return Err(
                    RuntimeError::ResourceLimitReached {
                        resource: OWNERSHIP_RESOURCE,
                        limit: capacity,
                    },
                );
            }
        }
        if tasks > 0 {
            return Ok(RunStep::PollTrigger(claim));
        }
        if self.is_shutting_down() {
            let _ = claim.commit();
            return Ok(RunStep::JoinStarted);
        }
        Ok(RunStep::StartEmpty(claim))
    }

    /// Continues a run without tasks after its workers were started.
    ///
    /// A failed start releases the claim; a successful one commits it.
    pub fn started_empty(&mut self, claim: StaticRunClaim, started: Result<(), RuntimeError>) -> (next:
        Result<RunStep, RuntimeError>)
        requires
            old(self)@.valid(),
            !claim.is_committed(),
        ensures
            final(self)@.valid(),
            old(self)@.only_forward(final(self)@),
            match started {
                Err(error) => {
                    &&& next == Err::<RunStep, RuntimeError>(error)
                    &&& final(self)@ == (CoreView { running: false, ..old(self)@ })
                },
                Ok(()) => next == Ok::<RunStep, RuntimeError>(RunStep::Drive) && final(self)@
                    == old(self)@,
            },
    {
        match started {
            Err(error) => {
                claim.release(self);
                Err(error)
            },
            Ok(()) => {
                let _ = claim.commit();
                Ok(RunStep::Drive)
            },
        }
    }

    /// Continues a run with tasks after one look at shutdown and the caller's trigger.
    ///
    /// A started shutdown wins; its outcome is awaited before the claim is given up. A ready
    /// trigger comes next.
    pub fn polled(claim: StaticRunClaim, shutdown_started: bool, triggered: bool) -> (next: RunStep)
        ensures
            next == (if shutdown_started {
                RunStep::JoinStartedThenRelease(claim)
            } else if triggered {
                RunStep::StartForTrigger(claim)
            } else {
                RunStep::Reserve(claim)
            }),
    {
        if shutdown_started {
            return RunStep::JoinStartedThenRelease(claim);
        }
        if triggered {
            return RunStep::StartForTrigger(claim);
        }
        RunStep::Reserve(claim)
    }

    /// Continues a run whose trigger won after its workers were started.
    pub fn started_for_trigger(
        &mut self,
        claim: StaticRunClaim,
        started: Result<(), RuntimeError>,
    ) -> (next: Result<RunStep, RuntimeError>)
        requires
            old(self)@.valid(),
            !claim.is_committed(),
        ensures
            final(self)@.valid(),
            old(self)@.only_forward(final(self)@),
            match started {
                Err(error) => {
                    &&& next == Err::<RunStep, RuntimeError>(error)
                    &&& final(self)@ == (CoreView { running: false, ..old(self)@ })
                },
                Ok(()) => {
                    &&& next == Ok::<RunStep, RuntimeError>(RunStep::JoinTrigger)
                    &&& final(self)@ == old(self)@
                },
            },
    {
        match started {
            Err(error) => {
                claim.release(self);
                Err(error)
            },
            Ok(()) => {
                let _ = claim.commit();
                Ok(RunStep::JoinTrigger)
            },
        }
    }

    /// Reserves cleanup ownership for the whole batch, given where the run is polled.
    ///
    /// A missing Tokio runtime or a refused reservation releases the claim. After the reservation
    /// a shutdown that has closed admission is joined, and the claim is committed.
    pub fn reserve_batch_in(
        &mut self,
        claim: StaticRunClaim,
        tasks: usize,
        runtime_active: bool,
        workers: Result<(), std::io::Error>,
    ) -> (next: Result<RunStep, RuntimeError>)
        requires
            old(self)@.valid(),
            !claim.is_committed(),
        ensures
            final(self)@.valid(),
            old(self)@.only_forward(final(self)@),
            batch_reserved(old(self)@, claim, tasks, runtime_active, workers, final(self)@, next),
    {
        if !runtime_active {
            claim.release(self);
            return Err(RuntimeError::TokioRuntimeUnavailable);
        }
        match self.try_reserve_ownership_many(tasks, workers) {
            Err(refused) => {
                claim.release(self);
                Err(ownership_admission_error(refused))
            },
            Ok(()) => {
                if self.is_shutting_down() {
                    let _ = claim.commit();
                    Ok(RunStep::JoinStarted)
                } else {
                    Ok(RunStep::StartBatch(claim))
                }
            },
        }
    }

    /// Reserves cleanup ownership for the whole batch, from where it is called.
    ///
    /// `start` starts the destructor workers. It is called only where a Tokio runtime is active,
    /// which is up to the caller's context; [`reserve_batch_in`](Self::reserve_batch_in) says what
    /// follows.
    pub fn reserve_batch<F: FnOnce() -> Result<(), std::io::Error>>(
        &mut self,
        claim: StaticRunClaim,
        tasks: usize,
        start: F,
    ) -> (next: Result<RunStep, RuntimeError>)
        requires
            old(self)@.valid(),
            !claim.is_committed(),
            start.requires(()),
        ensures
            final(self)@.valid(),
            old(self)@.only_forward(final(self)@),
            exists|active: bool, workers: Result<(), std::io::Error>|
                {
                    &&& #[trigger] started_where_active(start, active, workers)
                    &&& batch_reserved(
                        old(self)@,
                        claim,
                        tasks,
                        active,
                        workers,
                        final(self)@,
                        next,
                    )
                },
    {
        let active = tokio_runtime_active();
        let workers = if active {
            start()
        } else {
            Ok(())
        };
        proof {
            assert(runtime_probed(active));
            assert(started_where_active(start, active, workers));
        }
        self.reserve_batch_in(claim, tasks, active, workers)
    }

    /// Continues a run with a reserved batch after its workers were started.
    pub fn started_batch(&mut self, claim: StaticRunClaim, started: Result<(), RuntimeError>) -> (next:
        Result<RunStep, RuntimeError>)
        requires
            old(self)@.valid(),
            !claim.is_committed(),
        ensures
            final(self)@.valid(),
            old(self)@.only_forward(final(self)@),
            match started {
                Err(error) => {
                    &&& next == Err::<RunStep, RuntimeError>(error)
                    &&& final(self)@ == (CoreView { running: false, ..old(self)@ })
                },
                Ok(()) => next == Ok::<RunStep, RuntimeError>(RunStep::Enqueue) && final(self)@
                    == old(self)@,
            },
    {
        match started {
            Err(error) => {
                claim.release(self);
                Err(error)
            },
            Ok(()) => {
                let _ = claim.commit();
                Ok(RunStep::Enqueue)
            },
        }
    }

    /// Chooses what a committed run does while its batch waits for a queue slot.
    ///
    /// A started shutdown wins over the caller's trigger, and the trigger over the queue. Nothing
    /// is returned while the batch waits, or once it was sent.
    pub fn batch_wait(shutdown_started: bool, triggered: bool) -> (next: Option<RunStep>)
        ensures
            next == (if shutdown_started {
                Some(RunStep::JoinStarted)
            } else if triggered {
                Some(RunStep::JoinTrigger)
            } else {
                None
            }),
    {
        if shutdown_started {
            Some(RunStep::JoinStarted)
        } else if triggered {
            Some(RunStep::JoinTrigger)
        } else {
            None
        }
    }

    /// Continues a run after its batch was sent and decided, or could not be.
    ///
    /// Closed admission is not an error of the run when shutdown has started: the run joins it.
    /// An admitted batch drives shutdown. Every other refusal is returned; it consumes the
    /// lifecycle all the same.
    pub fn batch_decided(&self, decided: Result<(), RuntimeError>) -> (next: Result<
        RunStep,
        RuntimeError,
    >)
        ensures
            match decided {
                Ok(()) => next == Ok::<RunStep, RuntimeError>(RunStep::Drive),
                Err(error) => if error@ == RuntimeErrorView::ShuttingDown
                    && self@.shutdown.started {
                    next == Ok::<RunStep, RuntimeError>(RunStep::JoinStarted)
                } else {
                    next == Err::<RunStep, RuntimeError>(error)
                },
            },
    {
        match decided {
            Ok(()) => Ok(RunStep::Drive),
            Err(error) => {
                if matches!(error, RuntimeError::ShuttingDown) && self.shutdown.started {
                    Ok(RunStep::JoinStarted)
                } else {
                    Err(error)
                }
            },
        }
    }

    /// Chooses who owns the shutdown of a running batch.
    ///
    /// Shared shutdown, the caller's trigger, and an empty registry each end the run; whichever is
    /// noticed decides.
    pub fn drive_shutdown(wake: RunWake) -> (next: (RunStep, Option<ShutdownTrigger>))
        ensures
            next == (match wake {
                RunWake::ShutdownStarted => (RunStep::JoinStarted, None::<ShutdownTrigger>),
                RunWake::Triggered(trigger) => (RunStep::JoinTrigger, Some(trigger)),
                RunWake::RegistryEmpty => (RunStep::JoinTrigger, Some(ShutdownTrigger::Natural)),
            }),
    {
        match wake {
            RunWake::ShutdownStarted => (RunStep::JoinStarted, None),
            RunWake::Triggered(trigger) => (RunStep::JoinTrigger, Some(trigger)),
            RunWake::RegistryEmpty => (RunStep::JoinTrigger, Some(ShutdownTrigger::Natural)),
        }
    }
}

/// What woke a running batch.
#[derive(Debug)]
pub enum RunWake {
    /// Shared shutdown has started.
    ShutdownStarted,
    /// The caller's trigger is ready.
    Triggered(ShutdownTrigger),
    /// No task is registered or removing any more.
    RegistryEmpty,
}

/// A committed lifecycle is never available again: no later run gets past its claim, however many
/// tasks it brings.
pub proof fn law_a_committed_run_is_the_last(core: CoreView, tasks: nat)
    requires
        core.running,
    ensures
        core.run_refusal(tasks) == Some(RuntimeErrorView::AlreadyRunning),
{
}

/// A released claim leaves the lifecycle as available as before: the run is refused for the same
/// reason, or not at all.
pub proof fn law_a_released_claim_can_be_taken_again(core: CoreView, tasks: nat)
    requires
        !core.running,
    ensures
        ({
            let claimed = CoreView { running: true, ..core };
            let released = CoreView { running: false, ..claimed };
            released.run_refusal(tasks) == core.run_refusal(tasks)
        }),
{
}

} // verus!

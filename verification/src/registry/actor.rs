//! One actor split into a registry-owned handle and a part that is spawned after admission.
//!
//! The handle is indexed first and receives the spawned task later. The actor wrapper sends its
//! result through a one-shot channel before it reports its identity as complete. A normal join
//! resolves that result. A forced abort moves the task handle, the result receiver, and the name
//! reservation to the attempt reaper.

use tokio::sync::oneshot;
use tokio::task::JoinHandle;
use vstd::prelude::*;

use super::completion::RemovalCompletion;
use super::reaper::{registered, AttemptReaper};
use crate::channel::{
    connected, oneshot_channel, oneshot_try_recv, probed, send_or_return, sent_leaving, Probe,
};
use crate::identity::TaskId;
use crate::outcome::{ActorJoinError, ActorResult};
use crate::tasks::ActorParams;

verus! {

/// Metadata transferred to the reaper before a forced abort.
#[derive(Debug)]
pub struct AttemptReservation {
    /// Stable task identity.
    pub id: TaskId,
    /// Name retained through physical exit and terminal matching.
    pub name: String,
    /// Latch completed after actor output is committed to deferred cleanup.
    pub physical_release: RemovalCompletion,
}

impl AttemptReservation {
    /// Metadata for one possible force-abort transfer.
    pub fn new(id: TaskId, name: String, physical_release: RemovalCompletion) -> (reservation:
        AttemptReservation)
        ensures
            reservation == (AttemptReservation { id, name, physical_release }),
    {
        AttemptReservation { id, name, physical_release }
    }
}

/// Physical task of one actor.
pub type ActorTask<S> = JoinHandle<Option<ActorResult<S>>>;

/// How a physical actor task failed to return.
#[derive(Clone, Copy, Debug, PartialEq, Eq, Structural)]
pub enum JoinFailure {
    /// The wrapper panicked.
    Panicked {
        /// Whether destroying the panic payload also panicked.
        cleanup_poisoned: bool,
    },
    /// The task was cancelled.
    Cancelled,
}

/// What a physical actor task returned.
pub type Joined<S> = Result<Option<ActorResult<S>>, JoinFailure>;

/// Result of a physical join on its own, without the result channel.
pub open spec fn join_fallback<S>(joined: Joined<S>) -> Option<ActorResult<S>> {
    match joined {
        Ok(result) => result,
        Err(JoinFailure::Panicked { cleanup_poisoned }) => Some(
            Err(ActorJoinError::Panicked { cleanup_poisoned }),
        ),
        Err(JoinFailure::Cancelled) => Some(Err(ActorJoinError::Aborted)),
    }
}

/// Final actor result: a result from the channel wins, then what the join returned, then abort.
pub open spec fn join_result<S>(ready: Option<ActorResult<S>>, joined: Joined<S>) -> ActorResult<
    S,
> {
    match ready {
        Some(result) => result,
        None => match join_fallback(joined) {
            Some(result) => result,
            None => Err(ActorJoinError::Aborted),
        },
    }
}

/// What the runtime has to do to end a physical actor.
#[verifier::reject_recursive_types(S)]
pub enum AbortPlan<S> {
    /// There is no physical actor.
    Nothing,
    /// Abort the task.
    Abort(ActorTask<S>),
    /// Abort the task and reap it: its name is reserved with the reaper.
    Reap(ReapOrder<S>),
}

/// A physical actor that outlives its removal.
#[verifier::reject_recursive_types(S)]
pub struct ReapOrder<S> {
    /// Task to abort and await.
    pub join: ActorTask<S>,
    /// Result channel to drain after the task.
    pub result: Option<oneshot::Receiver<ActorResult<S>>>,
    /// Result received before the abort.
    pub ready: Option<ActorResult<S>>,
    /// Identity of the reaper record.
    pub id: TaskId,
    /// Latch of the reaper record.
    pub release: RemovalCompletion,
}

/// Registry-owned physical actor handle.
#[verifier::reject_recursive_types(S)]
pub struct ActorHandle<S> {
    /// Physical task after it is loaded from the spawn slot.
    pub join: Option<ActorTask<S>>,
    /// Slot filled when the scheduled actor is spawned.
    pub join_slot: Option<ActorTask<S>>,
    /// Reliable actor result receiver.
    pub result: Option<oneshot::Receiver<ActorResult<S>>>,
    /// Result received before the physical join completes.
    pub ready: Option<ActorResult<S>>,
    /// Logical result produced without waiting for a physical join.
    pub logical: Option<ActorResult<S>>,
    /// Metadata transferred to the reaper before a forced abort.
    pub reservation: Option<AttemptReservation>,
}

/// Handle whose actor task, if spawned, is no longer in the slot.
pub open spec fn loaded<S>(handle: ActorHandle<S>) -> ActorHandle<S> {
    if handle.join is None {
        ActorHandle { join: handle.join_slot, join_slot: None, ..handle }
    } else {
        handle
    }
}

/// Handle after a look into its result channel.
///
/// A value is kept as the ready result; a value or a closed channel ends the channel.
pub open spec fn noted<S>(handle: ActorHandle<S>, probe: Probe<ActorResult<S>>) -> ActorHandle<S> {
    match probe {
        Probe::Ready(result) => ActorHandle { ready: Some(result), result: None, ..handle },
        Probe::Closed => ActorHandle { result: None, ..handle },
        Probe::Empty => handle,
    }
}

/// Whether a handle became another one by looking into its result channel, which is left alone once
/// a result is ready.
pub open spec fn looked_into<S>(before: ActorHandle<S>, after: ActorHandle<S>) -> bool {
    match before.result {
        Some(receiver) if before.ready is None => exists|
            rest: oneshot::Receiver<ActorResult<S>>,
            probe: Probe<ActorResult<S>>,
        | #[trigger]
            probed(receiver, rest, probe) && after == noted(
                ActorHandle { result: Some(rest), ..before },
                probe,
            ),
        _ => after == before,
    }
}

/// Whether a physical join ended a handle with this result: the result channel is looked into once
/// more, and what it holds wins over what the task returned.
pub open spec fn completed<S>(
    before: ActorHandle<S>,
    joined: Joined<S>,
    after: ActorHandle<S>,
    result: ActorResult<S>,
) -> bool {
    exists|seen: ActorHandle<S>| #[trigger]
        looked_into(ActorHandle { join: None, reservation: None, ..before }, seen) && result
            == join_result(seen.ready, joined) && after == (ActorHandle { ready: None, ..seen })
}

/// Handle after a forced abort.
pub open spec fn aborted<S>(handle: ActorHandle<S>) -> ActorHandle<S> {
    let loaded = loaded(handle);
    let logical = Some(Err::<crate::outcome::ActorExitReason<S>, _>(ActorJoinError::Aborted));
    if loaded.join is None {
        ActorHandle { logical, ..loaded }
    } else if loaded.reservation is None {
        ActorHandle { join: None, logical, ..loaded }
    } else {
        ActorHandle {
            join: None,
            reservation: None,
            result: None,
            ready: None,
            logical,
            ..loaded
        }
    }
}

/// What a forced abort asks of the runtime.
pub open spec fn abort_plan<S>(handle: ActorHandle<S>) -> AbortPlan<S> {
    let loaded = loaded(handle);
    match (loaded.join, loaded.reservation) {
        (None, _) => AbortPlan::Nothing,
        (Some(join), None) => AbortPlan::Abort(join),
        (Some(join), Some(reservation)) => AbortPlan::Reap(
            ReapOrder {
                join,
                result: loaded.result,
                ready: loaded.ready,
                id: reservation.id,
                release: reservation.physical_release,
            },
        ),
    }
}

impl<S> ActorHandle<S> {
    /// Stores the task of an actor that was spawned after admission.
    pub fn fill_join_slot(&mut self, join: ActorTask<S>)
        ensures
            *final(self) == (ActorHandle { join_slot: Some(join), ..*old(self) }),
    {
        self.join_slot = Some(join);
    }

    /// Takes the physical task from the spawn slot when available.
    pub fn load_join(&mut self)
        ensures
            *final(self) == loaded(*old(self)),
    {
        if self.join.is_none() {
            self.join = self.join_slot.take();
        }
    }

    /// Transfers physical ownership to the reaper and reports logical abort.
    ///
    /// The name is reserved with the reaper before the task is aborted.
    pub fn abort(&mut self, reaper: &mut AttemptReaper<S>, active: bool) -> (plan: AbortPlan<S>)
        ensures
            *final(self) == aborted(*old(self)),
            plan == abort_plan(*old(self)),
            final(reaper)@ == (match (plan, old(self).reservation) {
                (AbortPlan::Reap(_), Some(reservation)) => registered(
                    old(reaper)@,
                    reservation,
                    active,
                ),
                _ => old(reaper)@,
            }),
    {
        self.load_join();
        let join = self.join.take();
        self.logical = Some(Err(ActorJoinError::Aborted));
        match join {
            None => AbortPlan::Nothing,
            Some(join) => match self.reservation.take() {
                None => AbortPlan::Abort(join),
                Some(reservation) => {
                    let id = reservation.id;
                    let release = reservation.physical_release;
                    reaper.register(reservation, active);
                    AbortPlan::Reap(
                        ReapOrder {
                            join,
                            result: self.result.take(),
                            ready: self.ready.take(),
                            id,
                            release,
                        },
                    )
                },
            },
        }
    }

    /// Records what a look into the result channel gave.
    pub fn note_probe(&mut self, probe: Probe<ActorResult<S>>)
        ensures
            *final(self) == noted(*old(self), probe),
    {
        match probe {
            Probe::Ready(result) => {
                self.ready = Some(result);
                self.result = None;
            },
            Probe::Closed => {
                self.result = None;
            },
            Probe::Empty => {},
        }
    }

    /// Tries to receive the reliable actor result without waiting.
    ///
    /// An actor reports its identity as complete only after this channel holds its result.
    /// The channel is left alone once a result is ready.
    pub fn result_ready(&mut self) -> (ready: bool)
        ensures
            ready == (final(self).ready is Some),
            looked_into(*old(self), *final(self)),
    {
        if self.ready.is_none() {
            if let Some(receiver) = self.result.take() {
                let ghost before = receiver;
                let (receiver, probe) = oneshot_try_recv(receiver);
                proof {
                    assert(probed(before, receiver, probe));
                }
                self.result = Some(receiver);
                self.note_probe(probe);
            }
        }
        self.ready.is_some()
    }

    /// Chooses the final result of a physical join.
    pub fn choose_result(ready: Option<ActorResult<S>>, joined: Joined<S>) -> (result: ActorResult<
        S,
    >)
        ensures
            result == join_result(ready, joined),
    {
        match ready {
            Some(result) => result,
            None => {
                let fallback = match joined {
                    Ok(result) => result,
                    Err(JoinFailure::Panicked { cleanup_poisoned }) => Some(
                        Err(ActorJoinError::Panicked { cleanup_poisoned }),
                    ),
                    Err(JoinFailure::Cancelled) => Some(Err(ActorJoinError::Aborted)),
                };
                match fallback {
                    Some(result) => result,
                    None => Err(ActorJoinError::Aborted),
                }
            },
        }
    }

    /// Resolves a physical join and preserves a result sent just before it.
    ///
    /// The wrapper sends its result before it completes, so the channel is looked into once more.
    pub fn complete_join(&mut self, joined: Joined<S>) -> (result: ActorResult<S>)
        ensures
            completed(*old(self), joined, *final(self), result),
    {
        self.join = None;
        self.reservation = None;
        let _ = self.result_ready();
        proof {
            let given = ActorHandle { join: None, reservation: None, ..*old(self) };
            assert(looked_into(given, *self));
        }
        let ready = self.ready.take();
        ActorHandle::choose_result(ready, joined)
    }

    /// Whether the result channel still has to be looked into.
    pub fn awaits_result(&self) -> (awaits: bool)
        ensures
            awaits == (self.ready is None && self.result is Some),
    {
        self.ready.is_none() && self.result.is_some()
    }

    /// Takes the logical result of an abort.
    pub fn take_logical(&mut self) -> (logical: Option<ActorResult<S>>)
        ensures
            logical == old(self).logical,
            *final(self) == (ActorHandle { logical: None, ..*old(self) }),
    {
        self.logical.take()
    }

    /// One turn of waiting for the actor.
    ///
    /// `probe` is what the result channel gave, `joined` what the physical task gave, if it ended.
    /// A logical result is returned first. The actor is not done before its physical task is.
    pub fn poll(&mut self, probe: Probe<ActorResult<S>>, joined: Option<Joined<S>>) -> (turn:
        Option<ActorResult<S>>)
        ensures
            old(self).logical is Some ==> {
                &&& turn == old(self).logical
                &&& *final(self) == (ActorHandle { logical: None, ..*old(self) })
            },
            old(self).logical is None ==> {
                let before = loaded(*old(self));
                let seen = if before.ready is None && before.result is Some {
                    noted(before, probe)
                } else {
                    before
                };
                if before.join is None || joined is None {
                    turn is None && *final(self) == seen
                } else {
                    turn matches Some(result) && completed(seen, joined->0, *final(self), result)
                }
            },
    {
        if self.logical.is_some() {
            return self.take_logical();
        }
        self.load_join();
        if self.awaits_result() {
            self.note_probe(probe);
        }
        if self.join.is_none() {
            return None;
        }
        match joined {
            None => None,
            Some(joined) => Some(self.complete_join(joined)),
        }
    }
}

/// Registry-owned identity and latches for one actor task.
#[derive(Debug)]
pub struct ActorRegistration {
    /// Stable task identity.
    pub id: TaskId,
    /// Unique name reserved through physical exit and terminal matching.
    pub name: String,
    /// Latch completed after actor output is committed to deferred cleanup.
    pub physical_release: RemovalCompletion,
}

/// One accepted actor waiting to be spawned after registry commit.
#[verifier::reject_recursive_types(S)]
pub struct ScheduledActor<S> {
    /// Stable task identity used by completion signals.
    pub id: TaskId,
    /// Settings the actor runs with.
    pub params: ActorParams,
    /// Reliable result channel owned by the actor wrapper.
    pub result: oneshot::Sender<ActorResult<S>>,
}

/// Handle of an actor that is not spawned yet.
pub open spec fn unspawned<S>(handle: ActorHandle<S>, registration: ActorRegistration) -> bool {
    &&& handle.join is None
    &&& handle.join_slot is None
    &&& handle.result is Some
    &&& handle.ready is None
    &&& handle.logical is None
    &&& handle.reservation == Some(
        AttemptReservation {
            id: registration.id,
            name: registration.name,
            physical_release: registration.physical_release,
        },
    )
}

impl<S> ScheduledActor<S> {
    /// Prepares an actor and its registry-owned handle before commit.
    pub fn new(registration: ActorRegistration, params: ActorParams) -> (pair: (
        ScheduledActor<S>,
        ActorHandle<S>,
    ))
        ensures
            pair.0.id == registration.id,
            pair.0.params == params,
            unspawned(pair.1, registration),
            pair.1.result matches Some(receiver) && connected(pair.0.result, receiver),
    {
        let (result_tx, result_rx) = oneshot_channel();
        let id = registration.id;
        let handle = ActorHandle {
            join: None,
            join_slot: None,
            result: Some(result_rx),
            ready: None,
            logical: None,
            reservation: Some(
                AttemptReservation::new(
                    registration.id,
                    registration.name,
                    registration.physical_release,
                ),
            ),
        };
        (ScheduledActor { id, params, result: result_tx }, handle)
    }

    /// Sends the actor result and names the identity to report as complete.
    ///
    /// The result is sent before the identity is known to anyone. A result that nobody receives
    /// is returned by the physical task.
    pub fn report(self, result: ActorResult<S>) -> (tail: (TaskId, Option<ActorResult<S>>))
        ensures
            tail.0 == self.id,
            sent_leaving(self.result, result, tail.1),
            tail.1 is Some ==> tail.1 == Some(result),
    {
        (self.id, send_or_return(self.result, result))
    }
}

} // verus!

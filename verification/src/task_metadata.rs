//! Isolation of task metadata callbacks.
//!
//! Asking a task for its name is user code: it may block or panic. Such a job runs on a small
//! fixed set of workers and carries its already charged task, so that queued, running, canceled,
//! and panicked callbacks all stay covered by the ownership budget.

use std::sync::mpsc::{SyncSender, TrySendError};
use tokio::sync::oneshot;
use vstd::prelude::*;

use crate::channel::{connected, oneshot_channel, send_or_return, sent_leaving};
use crate::deferred_drop::DropBundle;
use crate::registry::protocol::OwnedTask;
use crate::runner::OPAQUE_PANIC;

verus! {

/// Number of metadata workers.
pub const WORKER_COUNT: usize = 2;

/// `std::sync::mpsc::SyncSender`.
#[verifier::external_type_specification]
#[verifier::external_body]
#[verifier::reject_recursive_types(T)]
pub struct ExSyncSender<T>(SyncSender<T>);

/// Puts a job into a bounded queue without waiting.
///
/// Wraps `std::sync::mpsc::SyncSender::try_send`. Trusted: a refused job comes back unchanged.
/// Whether the queue has room is not known beforehand.
#[verifier::external_body]
fn sync_try_send<J>(sender: &SyncSender<J>, job: J) -> (sent: Result<(), J>)
    ensures
        sent matches Err(refused) ==> refused == job,
{
    match sender.try_send(job) {
        Ok(()) => Ok(()),
        Err(TrySendError::Full(job)) => Err(job),
        Err(TrySendError::Disconnected(job)) => Err(job),
    }
}

/// Result of one isolated name callback.
#[derive(Debug)]
pub enum TaskNameSnapshot<S> {
    /// The callback returned.
    Ready {
        /// The task.
        owned: OwnedTask<S>,
        /// Its name.
        task_name: String,
    },
    /// The callback panicked.
    Panicked {
        /// The task.
        owned: OwnedTask<S>,
        /// Text of the panic.
        message: String,
    },
}

/// One name callback waiting for a worker.
#[verifier::reject_recursive_types(S)]
pub struct NameJob<S> {
    /// The charged task.
    pub owned: OwnedTask<S>,
    /// Where the result goes.
    pub reply: oneshot::Sender<TaskNameSnapshot<S>>,
}

/// Task whose cleanup also covers a panic payload.
pub open spec fn with_payload<S>(owned: OwnedTask<S>, payload: u64) -> OwnedTask<S> {
    OwnedTask {
        cleanup: DropBundle { payload: Some(payload), ..owned.cleanup },
        ..owned
    }
}

/// Panic of a name callback.
#[derive(Debug)]
pub struct NamePanic {
    /// Text of the payload, if it has one.
    pub message: Option<String>,
    /// Ticket under which the payload is parked.
    pub payload: u64,
}

/// Whether a snapshot says what the name callback of a task did.
pub open spec fn records<S>(
    snapshot: TaskNameSnapshot<S>,
    owned: OwnedTask<S>,
    called: Result<String, NamePanic>,
) -> bool {
    match called {
        Ok(name) => snapshot == (TaskNameSnapshot::Ready { owned, task_name: name }),
        Err(panic) => {
            &&& snapshot matches TaskNameSnapshot::Panicked { owned: kept, message } && {
                &&& kept == with_payload(owned, panic.payload)
                &&& message@ == (match panic.message {
                    Some(message) => message@,
                    None => OPAQUE_PANIC@,
                })
            }
        },
    }
}

/// Classifies what a name callback did.
///
/// The payload of a panic stays with the task: it is destroyed where the task is.
pub fn snapshot_of<S>(owned: OwnedTask<S>, called: Result<String, NamePanic>) -> (snapshot:
    TaskNameSnapshot<S>)
    ensures
        records(snapshot, owned, called),
{
    match called {
        Ok(task_name) => TaskNameSnapshot::Ready { owned, task_name },
        Err(panic) => {
            let message = match panic.message {
                Some(message) => message,
                None => OPAQUE_PANIC.to_owned(),
            };
            let mut owned = owned;
            owned.cleanup.attach_panic_payload(panic.payload);
            TaskNameSnapshot::Panicked { owned, message }
        },
    }
}

impl<S> NameJob<S> {
    /// Sends the result of the callback to whoever waits for it.
    ///
    /// A result that nobody waits for comes back with the task in it. What is sent is
    /// [`snapshot_of`] the callback. Whether somebody waits is up to the receiver;
    /// [`undelivered`](crate::channel::undelivered) says what follows.
    pub fn finish(self, called: Result<String, NamePanic>) -> (unwanted: Option<
        TaskNameSnapshot<S>,
    >)
        ensures
            exists|snapshot: TaskNameSnapshot<S>| #[trigger]
                records(snapshot, self.owned, called) && sent_leaving(
                    self.reply,
                    snapshot,
                    unwanted,
                ) && (unwanted is Some ==> unwanted == Some(snapshot)),
    {
        let snapshot = snapshot_of(self.owned, called);
        send_or_return(self.reply, snapshot)
    }
}

/// Entry to the metadata workers.
#[verifier::reject_recursive_types(J)]
pub struct MetadataExecutor<J> {
    sender: Option<SyncSender<J>>,
}

/// Whether a job was put to a bounded queue and the queue gave this answer.
pub closed spec fn queued_with<J>(queue: SyncSender<J>, job: J, answer: Result<(), J>) -> bool {
    call_ensures(sync_try_send::<J>, (&queue, job), answer)
}

impl<J> MetadataExecutor<J> {
    /// Queue of the workers, if any takes jobs.
    pub closed spec fn queue(self) -> Option<SyncSender<J>> {
        self.sender
    }

    /// Whether any worker takes jobs.
    pub open spec fn accepting(self) -> bool {
        self.queue() is Some
    }

    /// Whether a job was handed to the workers with this answer: their queue decides, and without
    /// workers the job comes back.
    pub open spec fn handed(self, job: J, answer: Result<(), J>) -> bool {
        &&& match self.queue() {
            Some(queue) => queued_with(queue, job, answer),
            None => answer == Err::<(), J>(job),
        }
        &&& answer matches Err(refused) ==> refused == job
    }

    /// Entry to the workers that started, if any did.
    pub fn start(started: usize, sender: SyncSender<J>) -> (executor: MetadataExecutor<J>)
        ensures
            executor.queue() == (if started != 0 {
                Some(sender)
            } else {
                None
            }),
    {
        MetadataExecutor { sender: if started != 0 {
            Some(sender)
        } else {
            None
        } }
    }

    /// Hands a job to the workers, or gives it back.
    ///
    /// Whether the queue has room is up to the queue. Without workers every job comes back.
    pub fn dispatch(&self, job: J) -> (dispatched: Result<(), J>)
        ensures
            self.handed(job, dispatched),
    {
        match &self.sender {
            None => Err(job),
            Some(sender) => sync_try_send(sender, job),
        }
    }
}

/// What becomes of a name callback after the workers answered: a receiver of its result, or the
/// task itself.
pub open spec fn reply_or_task<S>(
    answer: Result<(), NameJob<S>>,
    receiver: oneshot::Receiver<TaskNameSnapshot<S>>,
) -> Result<oneshot::Receiver<TaskNameSnapshot<S>>, OwnedTask<S>> {
    match answer {
        Ok(()) => Ok(receiver),
        Err(job) => Err(job.owned),
    }
}

/// Whether the job of a task, with a reply channel to the given receiver, was handed to the workers
/// with this answer.
pub open spec fn handed_over<S>(
    executor: MetadataExecutor<NameJob<S>>,
    owned: OwnedTask<S>,
    receiver: oneshot::Receiver<TaskNameSnapshot<S>>,
    answer: Result<(), NameJob<S>>,
) -> bool {
    exists|reply: oneshot::Sender<TaskNameSnapshot<S>>| #[trigger]
        connected(reply, receiver) && executor.handed(NameJob { owned, reply }, answer)
}

/// Picks what becomes of a name callback after the workers answered.
pub fn after_dispatch<S>(
    answer: Result<(), NameJob<S>>,
    receiver: oneshot::Receiver<TaskNameSnapshot<S>>,
) -> (dispatched: Result<oneshot::Receiver<TaskNameSnapshot<S>>, OwnedTask<S>>)
    ensures
        dispatched == reply_or_task(answer, receiver),
{
    match answer {
        Ok(()) => Ok(receiver),
        Err(job) => Err(job.owned),
    }
}

/// Dispatches the name callback of one charged task, and returns the task intact where the workers
/// cannot take it.
///
/// Whether they can is up to their queue; [`after_dispatch`] says what follows.
pub fn snapshot_task_name<S>(executor: &MetadataExecutor<NameJob<S>>, owned: OwnedTask<S>) -> (
    dispatched: Result<oneshot::Receiver<TaskNameSnapshot<S>>, OwnedTask<S>>)
    ensures
        exists|
            receiver: oneshot::Receiver<TaskNameSnapshot<S>>,
            answer: Result<(), NameJob<S>>,
        | #[trigger]
            handed_over(*executor, owned, receiver, answer) && dispatched == reply_or_task(
                answer,
                receiver,
            ),
        dispatched matches Err(returned) ==> returned == owned,
        !executor.accepting() ==> dispatched is Err,
{
    let (reply, receiver) = oneshot_channel();
    let answer = executor.dispatch(NameJob { owned, reply });
    proof {
        assert(connected(reply, receiver));
        assert(handed_over(*executor, owned, receiver, answer));
    }
    after_dispatch(answer, receiver)
}

/// A name callback gives its task back whatever it did: the task itself with the name that was
/// returned, or the task with the payload of the panic among its user values and the panic's text.
pub proof fn law_a_name_callback_gives_its_task_back<S>(
    snapshot: TaskNameSnapshot<S>,
    owned: OwnedTask<S>,
    called: Result<String, NamePanic>,
)
    requires
        records(snapshot, owned, called),
    ensures
        called matches Ok(name) ==> snapshot == (TaskNameSnapshot::Ready { owned, task_name: name }),
        called matches Err(panic) ==> (snapshot matches TaskNameSnapshot::Panicked {
            owned: kept,
            message,
        } && kept.spec == owned.spec && kept.cleanup.ticket == owned.cleanup.ticket
            && kept.cleanup.outcomes == owned.cleanup.outcomes && kept.cleanup.output
            == owned.cleanup.output && kept.cleanup.poisoned == owned.cleanup.poisoned
            && kept.cleanup.payload == Some(panic.payload) && (panic.message matches Some(text)
            ==> message@ == text@) && (panic.message is None ==> message@
            == "non-string panic payload"@)),
{
}

/// Dispatching a name callback loses nothing: either a worker has the job of this very task, whose
/// answer reaches the returned receiver, or the task comes back as it was.
pub proof fn law_a_dispatch_hands_over_or_gives_back<S>(
    executor: MetadataExecutor<NameJob<S>>,
    owned: OwnedTask<S>,
    receiver: oneshot::Receiver<TaskNameSnapshot<S>>,
    answer: Result<(), NameJob<S>>,
)
    requires
        handed_over(executor, owned, receiver, answer),
    ensures
        answer is Ok ==> reply_or_task(answer, receiver) == Ok::<_, OwnedTask<S>>(receiver),
        answer is Err ==> reply_or_task(answer, receiver) == Err::<
            oneshot::Receiver<TaskNameSnapshot<S>>,
            _,
        >(owned),
        executor.queue() is None ==> answer is Err,
        exists|reply: oneshot::Sender<TaskNameSnapshot<S>>| #[trigger]
            connected(reply, receiver) && (executor.queue() matches Some(queue) ==> queued_with(
                queue,
                NameJob { owned, reply },
                answer,
            )),
{
}

} // verus!

//! Tokio channel and task handles, and the calls that decisions depend on.
//!
//! The handles are opaque: a decision moves them and acts on what a call returned.

use tokio::sync::{mpsc, oneshot};
use tokio::task::{JoinError, JoinHandle};
use vstd::prelude::*;

verus! {

/// `tokio::sync::oneshot::Sender`.
#[verifier::external_type_specification]
#[verifier::external_body]
#[verifier::reject_recursive_types(T)]
pub struct ExOneshotSender<T>(oneshot::Sender<T>);

/// `tokio::sync::oneshot::Receiver`.
#[verifier::external_type_specification]
#[verifier::external_body]
#[verifier::reject_recursive_types(T)]
pub struct ExOneshotReceiver<T>(oneshot::Receiver<T>);

/// `tokio::task::JoinHandle`.
#[verifier::external_type_specification]
#[verifier::external_body]
#[verifier::reject_recursive_types(T)]
pub struct ExJoinHandle<T>(JoinHandle<T>);

/// `tokio::sync::oneshot::error::RecvError`, the error that a receiver's future yields.
#[verifier::external_type_specification]
#[verifier::external_body]
pub struct ExRecvError(oneshot::error::RecvError);

/// `tokio::task::JoinError`, the error that a join handle's future yields.
#[verifier::external_type_specification]
#[verifier::external_body]
pub struct ExJoinError(JoinError);

/// `tokio::sync::mpsc::Sender`.
#[verifier::external_type_specification]
#[verifier::external_body]
#[verifier::reject_recursive_types(T)]
pub struct ExMpscSender<T>(mpsc::Sender<T>);

/// `tokio::sync::mpsc::Permit`, one reserved slot of a bounded queue.
#[verifier::external_type_specification]
#[verifier::external_body]
#[verifier::reject_recursive_types(T)]
pub struct ExMpscPermit<'a, T>(mpsc::Permit<'a, T>);

/// What a receiver holds right now.
#[derive(Debug)]
pub enum Probe<T> {
    /// The value, now taken out of the channel.
    Ready(T),
    /// No value, and the sender is gone.
    Closed,
    /// No value yet.
    Empty,
}

/// Whether two ends belong together: one call of `oneshot_channel` gave both.
pub open(crate) spec fn connected<T>(
    sender: oneshot::Sender<T>,
    receiver: oneshot::Receiver<T>,
) -> bool {
    call_ensures(oneshot_channel::<T>, (), (sender, receiver))
}

/// Whether a value was sent through a sender and the channel gave this answer.
pub closed spec fn sent_through<T>(
    sender: oneshot::Sender<T>,
    value: T,
    answer: Result<(), T>,
) -> bool {
    call_ensures(oneshot_send::<T>, (sender, value), answer)
}

/// What is left of a value after the channel answered: nothing where it was received, else all of
/// it.
pub open spec fn left_over<T>(answer: Result<(), T>) -> Option<T> {
    match answer {
        Ok(()) => None,
        Err(refused) => Some(refused),
    }
}

/// Whether a value was sent through a sender and this is left of it.
pub open spec fn sent_leaving<T>(sender: oneshot::Sender<T>, value: T, left: Option<T>) -> bool {
    exists|answer: Result<(), T>| #[trigger]
        sent_through(sender, value, answer) && left == left_over(answer)
}

/// Creates a one-shot channel.
///
/// Wraps `tokio::sync::oneshot::channel`. Nothing is claimed of the two ends but that they came
/// from one call.
#[verifier::external_body]
pub(crate) fn oneshot_channel<T>() -> (ends: (oneshot::Sender<T>, oneshot::Receiver<T>)) {
    oneshot::channel()
}

/// Sends the one value of a one-shot channel.
///
/// Wraps `tokio::sync::oneshot::Sender::send`. Trusted: a refused value comes back unchanged.
/// Whether the receiver still listens is not known beforehand.
#[verifier::external_body]
fn oneshot_send<T>(sender: oneshot::Sender<T>, value: T) -> (sent: Result<(), T>)
    ensures
        sent matches Err(refused) ==> refused == value,
{
    sender.send(value)
}

/// What is left of a value after the channel answered.
pub fn undelivered<T>(answer: Result<(), T>) -> (left: Option<T>)
    ensures
        left == left_over(answer),
{
    match answer {
        Ok(()) => None,
        Err(refused) => Some(refused),
    }
}

/// Sends the one value of a one-shot channel and gives back what is left of it.
///
/// Whether the receiver still listens is up to the receiver; [`undelivered`] says what follows.
pub(crate) fn send_or_return<T>(sender: oneshot::Sender<T>, value: T) -> (left: Option<T>)
    ensures
        sent_leaving(sender, value, left),
        left is Some ==> left == Some(value),
{
    let answer = oneshot_send(sender, value);
    proof {
        assert(sent_through(sender, value, answer));
    }
    undelivered(answer)
}

/// Whether a receiver was looked into, gave this, and came back like that.
pub open(crate) spec fn probed<T>(
    before: oneshot::Receiver<T>,
    after: oneshot::Receiver<T>,
    probe: Probe<T>,
) -> bool {
    call_ensures(oneshot_try_recv::<T>, (before,), (after, probe))
}

/// Looks into a one-shot channel without waiting, and gives the receiver back.
///
/// Wraps `tokio::sync::oneshot::Receiver::try_recv`. Nothing is claimed of the result: it depends
/// on what the sender did so far.
#[verifier::external_body]
pub(crate) fn oneshot_try_recv<T>(receiver: oneshot::Receiver<T>) -> (seen: (
    oneshot::Receiver<T>,
    Probe<T>,
)) {
    let mut receiver = receiver;
    let probe = match receiver.try_recv() {
        Ok(value) => Probe::Ready(value),
        Err(oneshot::error::TryRecvError::Closed) => Probe::Closed,
        Err(oneshot::error::TryRecvError::Empty) => Probe::Empty,
    };
    (receiver, probe)
}

/// Why a bounded queue gave no slot.
#[derive(Clone, Copy, Debug, PartialEq, Eq, Structural)]
pub enum QueueRefusal {
    /// Every slot is taken.
    Full,
    /// The receiver is gone.
    Closed,
}

/// Whether a bounded queue was asked for a slot and gave this answer.
pub open(crate) spec fn reserved_from<'a, T>(
    sender: &'a mpsc::Sender<T>,
    slot: Result<mpsc::Permit<'a, T>, QueueRefusal>,
) -> bool {
    call_ensures(mpsc_try_reserve::<T>, (sender,), slot)
}

/// Reserves a slot of a bounded queue without waiting.
///
/// Wraps `tokio::sync::mpsc::Sender::try_reserve`. Nothing is claimed of the result: it depends on
/// what the queue holds right now.
#[verifier::external_body]
pub(crate) fn mpsc_try_reserve<'a, T>(sender: &'a mpsc::Sender<T>) -> (slot: Result<
    mpsc::Permit<'a, T>,
    QueueRefusal,
>) {
    match sender.try_reserve() {
        Ok(permit) => Ok(permit),
        Err(mpsc::error::TrySendError::Full(())) => Err(QueueRefusal::Full),
        Err(mpsc::error::TrySendError::Closed(())) => Err(QueueRefusal::Closed),
    }
}

/// Whether the calling thread was asked for its Tokio runtime and gave this answer.
pub open(crate) spec fn runtime_probed(active: bool) -> bool {
    call_ensures(tokio_runtime_active, (), active)
}

/// Whether the calling thread runs inside a Tokio runtime.
///
/// Wraps `tokio::runtime::Handle::try_current`. Nothing is claimed of the result: it depends on the
/// caller's context.
#[verifier::external_body]
pub(crate) fn tokio_runtime_active() -> (active: bool) {
    tokio::runtime::Handle::try_current().is_ok()
}

} // verus!

//! Trusted boundary around the unbounded multi-producer single-consumer
//! queues that carry results from background tasks to the polling thread.
//!
//! A queue's contents change concurrently with the poller, so nothing is
//! assumed about *which* message a poll yields — only the shape of each
//! outcome.  The session layer builds its guarantees on top of these.

use vstd::prelude::*;
use crate::errors::RecvError;

verus! {

#[verifier::external_type_specification]
#[verifier::external_body]
#[verifier::reject_recursive_types(T)]
pub struct ExSender<T>(async_channel::Sender<T>);

#[verifier::external_type_specification]
#[verifier::external_body]
#[verifier::reject_recursive_types(T)]
pub struct ExReceiver<T>(async_channel::Receiver<T>);

/// Relies on async_channel::unbounded: returns the sending and receiving
/// end of a fresh queue that can hold any number of messages.
pub assume_specification<T>[ async_channel::unbounded::<T> ]() -> (r: (
    async_channel::Sender<T>,
    async_channel::Receiver<T>,
));

/// Relies on async_channel::Receiver::try_recv: returns the oldest queued
/// message without blocking; `Empty` when nothing is queued now, `Closed`
/// when the channel is closed and drained.  Which of the three comes back
/// depends on concurrent senders, so every outcome is admitted.
#[verifier::external_body]
pub(crate) fn try_recv_from<T>(rx: &async_channel::Receiver<T>) -> (r: Result<T, RecvError>)
    ensures
        r matches Err(e) ==> (e is Empty || e is Closed),
{
    match rx.try_recv() {
        Ok(v) => Ok(v),
        Err(async_channel::TryRecvError::Empty) => Err(RecvError::Empty),
        Err(async_channel::TryRecvError::Closed) => Err(RecvError::Closed),
    }
}

/// Relies on async_channel::Sender::clone: a clone is another handle on the
/// same queue.
#[verifier::external_body]
pub(crate) fn clone_sender<T>(s: &async_channel::Sender<T>) -> (r: async_channel::Sender<T>)
    ensures
        r == *s,
{
    s.clone()
}

} // verus!

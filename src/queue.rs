//! The queues between the handlers and the worker, as crossbeam channels.
use vstd::prelude::*;

use crate::command::Command;

verus! {

/// The sending end of a crossbeam channel, carried through opaquely.
#[verifier::external_type_specification]
#[verifier::external_body]
#[verifier::reject_recursive_types(T)]
pub struct ExSender<T>(crossbeam_channel::Sender<T>);

/// The receiving end of a crossbeam channel, carried through opaquely.
#[verifier::external_type_specification]
#[verifier::external_body]
#[verifier::reject_recursive_types(T)]
pub struct ExReceiver<T>(crossbeam_channel::Receiver<T>);

/// How a bounded wait on a result queue ended.
#[derive(Debug, PartialEq, Eq)]
pub enum Fetched<T> {
    /// A result was taken off the queue.
    Arrived(T),
    /// The time ran out with the queue empty.
    TimedOut,
    /// The queue is empty and every sender is gone.
    Closed,
}

/// Relies on crossbeam_channel::unbounded: a new queue with no bound, and its
/// two ends.
#[verifier::external_body]
pub(crate) fn open_queue<T>() -> (crossbeam_channel::Sender<T>, crossbeam_channel::Receiver<T>) {
    crossbeam_channel::unbounded()
}

/// Relies on crossbeam_channel::Sender::send: it fails only once every
/// receiver is gone, and its error then holds the message that was handed in.
#[verifier::external_body]
pub(crate) fn enqueue(tx: &crossbeam_channel::Sender<Command>, c: Command) -> (r: Result<(), Command>)
    ensures
        r matches Err(back) ==> back == c,
{
    tx.send(c).map_err(|e| e.0)
}

/// Relies on crossbeam_channel::Receiver::recv: blocks until a result is
/// taken off the queue (`Some`), or the queue is empty with every sender gone
/// (`None`). Which result comes depends on the other threads.
#[verifier::external_body]
pub(crate) fn wait_answer<T>(rx: &crossbeam_channel::Receiver<T>) -> Option<T> {
    rx.recv().ok()
}

/// Relies on crossbeam_channel::Receiver::recv_timeout, with a wait of `secs`
/// seconds (made a `Duration` by `Duration::from_secs`): a result, the
/// time running out, or a closed queue. Which one comes
/// depends on the other threads and on the clock.
#[verifier::external_body]
pub(crate) fn wait_answer_for<T>(rx: &crossbeam_channel::Receiver<T>, secs: u64) -> Fetched<T> {
    match rx.recv_timeout(std::time::Duration::from_secs(secs)) {
        Ok(v) => Fetched::Arrived(v),
        Err(crossbeam_channel::RecvTimeoutError::Timeout) => Fetched::TimedOut,
        Err(crossbeam_channel::RecvTimeoutError::Disconnected) => Fetched::Closed,
    }
}

} // verus!

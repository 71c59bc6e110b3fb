use vstd::prelude::*;

use crate::gain::CHANNEL_CAPACITY;

verus! {

#[verifier::external_type_specification]
#[verifier::external_body]
#[verifier::reject_recursive_types(T)]
pub struct ExSender<T>(crossbeam_channel::Sender<T>);

#[verifier::external_type_specification]
#[verifier::external_body]
#[verifier::reject_recursive_types(T)]
pub struct ExReceiver<T>(crossbeam_channel::Receiver<T>);

/// What became of a message handed to a non-blocking send.
#[derive(Clone, Copy, Debug, PartialEq, Eq, Structural)]
pub enum SendOutcome {
    Sent,
    /// The queue was full; the message was dropped.
    Full,
    /// The other end is gone; the message was dropped.
    Disconnected,
}

/// Relies on crossbeam_channel::bounded: the two ends of one new queue that holds at
/// most `cap` messages. It panics only on a capacity too large to lay out, which the
/// bound here leaves out.
#[verifier::external_body]
pub(crate) fn new_bounded<T>(cap: usize) -> (r: (crossbeam_channel::Sender<T>, crossbeam_channel::Receiver<T>))
    requires
        0 < cap <= 0x1_0000,
{
    crossbeam_channel::bounded(cap)
}

/// Relies on crossbeam_channel::Sender::try_send: it never blocks, and either queues
/// the message or hands it back as full or disconnected. Which one depends on the
/// other thread, so nothing is promised of the outcome.
#[verifier::external_body]
pub(crate) fn try_send<T>(tx: &crossbeam_channel::Sender<T>, msg: T) -> (r: SendOutcome) {
    match tx.try_send(msg) {
        Ok(()) => SendOutcome::Sent,
        Err(crossbeam_channel::TrySendError::Full(_)) => SendOutcome::Full,
        Err(crossbeam_channel::TrySendError::Disconnected(_)) => SendOutcome::Disconnected,
    }
}

/// Relies on crossbeam_channel::Receiver::try_recv: it never blocks, and returns the
/// oldest queued message, or nothing when the queue is empty or disconnected. What is
/// queued depends on the other thread, so nothing is promised of the result.
#[verifier::external_body]
pub(crate) fn try_recv<T>(rx: &crossbeam_channel::Receiver<T>) -> (r: Option<T>) {
    rx.try_recv().ok()
}

/// Takes every message queued on `rx` now, oldest first, without blocking. It stops
/// after one queue's worth of messages, so that a sender that keeps up cannot hold
/// the caller in the loop.
pub fn drain<T>(rx: &crossbeam_channel::Receiver<T>) -> (r: Vec<T>)
    ensures
        r@.len() <= CHANNEL_CAPACITY,
{
    let mut out: Vec<T> = Vec::new();
    let mut i: usize = 0;
    while i < CHANNEL_CAPACITY
        invariant
            i <= CHANNEL_CAPACITY,
            out@.len() == i,
        decreases CHANNEL_CAPACITY - i,
    {
        match try_recv(rx) {
            Some(m) => out.push(m),
            None => break,
        }
        i = i + 1;
    }
    out
}

} // verus!

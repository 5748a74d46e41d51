//! The bounded queues that connect command handlers to a worker: one for
//! outbound payloads, one for the stop signal. Both are channels of the
//! `crossbeam-channel` crate; what is stated of them here is taken on
//! trust from that crate.

use crossbeam_channel::Receiver;
use crossbeam_channel::Sender;
use crossbeam_channel::TryRecvError;
use crossbeam_channel::TrySendError;
use vstd::prelude::*;

verus! {

/// The sending half of a `crossbeam-channel` channel, opaque to proofs.
#[verifier::external_type_specification]
#[verifier::external_body]
#[verifier::reject_recursive_types(T)]
pub struct ExSender<T>(Sender<T>);

/// The receiving half of a `crossbeam-channel` channel, opaque to proofs.
#[verifier::external_type_specification]
#[verifier::external_body]
#[verifier::reject_recursive_types(T)]
pub struct ExReceiver<T>(Receiver<T>);

/// How a non-blocking send ended.
#[derive(Clone, Copy, Debug, PartialEq, Eq, Structural)]
pub enum SendOutcome {
    /// The item is in the queue.
    Sent,
    /// The queue is at capacity; the item was dropped.
    Full,
    /// Every receiver is gone; the item was dropped.
    Disconnected,
}

/// How a non-blocking receive ended.
pub enum Polled<T> {
    /// The oldest queued item.
    Item(T),
    /// Nothing is queued, and a sender is still alive.
    Empty,
    /// Nothing is queued, and every sender is gone.
    Disconnected,
}

/// The largest capacity that this module asks of a bounded channel.
pub const MAX_CAPACITY: usize = 65536;

/// The capacity with which a channel of payloads was made.
pub uninterp spec fn payload_capacity(queue: Sender<Vec<u8>>) -> nat;

/// The capacity with which a channel of signals was made.
pub uninterp spec fn signal_capacity(queue: Sender<()>) -> nat;

/// Calls `crossbeam_channel::bounded` for a channel of payloads, which
/// holds at most `capacity` of them at a time. The call panics only where
/// the capacity is too large to round up to a power of two and double,
/// far above `MAX_CAPACITY`.
#[verifier::external_body]
pub(crate) fn bounded_payloads(capacity: usize) -> (pair: (Sender<Vec<u8>>, Receiver<Vec<u8>>))
    requires
        capacity <= MAX_CAPACITY,
    ensures
        payload_capacity(pair.0) == capacity,
{
    crossbeam_channel::bounded(capacity)
}

/// Calls `crossbeam_channel::bounded` for a channel of signals, which
/// holds at most `capacity` of them at a time. The call panics only where
/// the capacity is too large to round up to a power of two and double,
/// far above `MAX_CAPACITY`.
#[verifier::external_body]
pub(crate) fn bounded_signals(capacity: usize) -> (pair: (Sender<()>, Receiver<()>))
    requires
        capacity <= MAX_CAPACITY,
    ensures
        signal_capacity(pair.0) == capacity,
{
    crossbeam_channel::bounded(capacity)
}

/// Calls `Sender::try_send`, which never blocks: it queues the item or
/// fails at once because the channel is full or disconnected. Which of the
/// three happens depends on the other threads, so nothing is claimed of
/// the outcome.
#[verifier::external_body]
pub(crate) fn offer<T>(queue: &Sender<T>, item: T) -> (outcome: SendOutcome) {
    match queue.try_send(item) {
        Ok(()) => SendOutcome::Sent,
        Err(TrySendError::Full(_)) => SendOutcome::Full,
        Err(TrySendError::Disconnected(_)) => SendOutcome::Disconnected,
    }
}

/// Calls `Receiver::try_recv`, which never blocks: it takes the oldest
/// queued item or fails at once because the channel is empty. Which
/// happens depends on the other threads, so nothing is claimed of the
/// outcome.
#[verifier::external_body]
pub(crate) fn poll<T>(queue: &Receiver<T>) -> (polled: Polled<T>) {
    match queue.try_recv() {
        Ok(item) => Polled::Item(item),
        Err(TryRecvError::Empty) => Polled::Empty,
        Err(TryRecvError::Disconnected) => Polled::Disconnected,
    }
}

} // verus!

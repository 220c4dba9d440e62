//! The outbound queue of a connection: a bounded channel of change events,
//! filled by fan-out and drained by the connection's outbound loop.

use vstd::prelude::*;
use crate::message::WebSocketMessage;

verus! {

/// The sending half of a bounded `tokio` channel.
#[verifier::external_type_specification]
#[verifier::external_body]
#[verifier::reject_recursive_types(T)]
pub struct ExSender<T>(tokio::sync::mpsc::Sender<T>);

/// The receiving half of a bounded `tokio` channel.
#[verifier::external_type_specification]
#[verifier::external_body]
#[verifier::reject_recursive_types(T)]
pub struct ExReceiver<T>(tokio::sync::mpsc::Receiver<T>);

/// How many change events the outbound queue of one connection holds.
pub const OUTBOUND_CAPACITY: usize = 100;

/// What became of one offer of a change event to one connection.
#[derive(Clone, Copy, Debug, PartialEq, Eq, Structural)]
pub enum DeliveryOutcome {
    /// The event stands in the connection's queue.
    Delivered,
    /// The queue was full: the event was dropped for this connection.
    QueueFull,
    /// The connection no longer drains its queue: the event was dropped.
    Closed,
}

/// How many events the queue behind `tx` holds at most: the capacity with
/// which its channel was made.
pub uninterp spec fn queue_bound(tx: tokio::sync::mpsc::Sender<WebSocketMessage>) -> nat;

/// Makes a channel of `capacity` events with `tokio::sync::mpsc::channel`,
/// which panics on a capacity of zero and on one above an eighth of
/// `usize::MAX`. Trusted: the queue of the channel is bounded by `capacity`.
#[verifier::external_body]
fn bounded_channel(capacity: usize) -> (halves: (
    tokio::sync::mpsc::Sender<WebSocketMessage>,
    tokio::sync::mpsc::Receiver<WebSocketMessage>,
))
    requires
        0 < capacity <= usize::MAX / 8,
    ensures
        queue_bound(halves.0) == capacity,
{
    tokio::sync::mpsc::channel(capacity)
}

/// Offers `message` to a queue with `tokio::sync::mpsc::Sender::try_send`,
/// which never waits. Which of the three outcomes comes back depends on how
/// full the queue is and on whether its receiver still lives, so nothing is
/// claimed of the result.
#[verifier::external_body]
pub(crate) fn try_send(
    tx: &tokio::sync::mpsc::Sender<WebSocketMessage>,
    message: WebSocketMessage,
) -> (outcome: DeliveryOutcome) {
    match tx.try_send(message) {
        Ok(()) => DeliveryOutcome::Delivered,
        Err(tokio::sync::mpsc::error::TrySendError::Full(_)) => DeliveryOutcome::QueueFull,
        Err(tokio::sync::mpsc::error::TrySendError::Closed(_)) => DeliveryOutcome::Closed,
    }
}

/// Makes the outbound queue of a new connection, of the one capacity that
/// all connections have: the sending half goes into the registry, the
/// receiving half to the connection's outbound loop.
pub fn outbound_channel() -> (halves: (
    tokio::sync::mpsc::Sender<WebSocketMessage>,
    tokio::sync::mpsc::Receiver<WebSocketMessage>,
))
    ensures
        queue_bound(halves.0) == OUTBOUND_CAPACITY,
{
    bounded_channel(OUTBOUND_CAPACITY)
}

} // verus!

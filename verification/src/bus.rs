//! The per-channel fan-out primitive: one producer side used by the command
//! surface, many consumer sides, one per joined protocol client. Built on
//! tokio's broadcast channel, whose bounded per-consumer queue drops the
//! oldest undelivered entries for a lagging consumer instead of blocking the
//! producer.

use vstd::prelude::*;
use crate::signal::Signal;

verus! {

#[verifier::external_type_specification]
#[verifier::external_body]
#[verifier::reject_recursive_types(T)]
pub struct ExSender<T>(tokio::sync::broadcast::Sender<T>);

#[verifier::external_type_specification]
#[verifier::external_body]
#[verifier::reject_recursive_types(T)]
pub struct ExReceiver<T>(tokio::sync::broadcast::Receiver<T>);

/// Relies on tokio::sync::broadcast::channel: allocates a fresh bus whose
/// per-consumer queue holds `capacity` pending signals. The call panics when
/// `capacity` is zero or exceeds `usize::MAX / 2`, so those are excluded here.
/// The receiver half returned by the call is dropped: consumers are created
/// later through `subscribe_bus`.
#[verifier::external_body]
pub(crate) fn new_bus(capacity: usize) -> (tx: tokio::sync::broadcast::Sender<Signal>)
    requires
        1 <= capacity <= usize::MAX / 2,
{
    let (tx, _rx) = tokio::sync::broadcast::channel(capacity);
    tx
}

/// Relies on tokio::sync::broadcast::Sender::send: queues the signal for
/// every currently-subscribed consumer and reports how many there were (a
/// consumer may still drop, or lag past it, before reading it); with zero
/// subscribers it returns an error instead, mapped here to zero. The call
/// never blocks and never panics, so publishing to an empty bus is a no-op.
#[verifier::external_body]
pub(crate) fn publish_signal(tx: &tokio::sync::broadcast::Sender<Signal>, signal: Signal) -> (subscribers: usize)
{
    match tx.send(signal) {
        Ok(n) => n,
        Err(_) => 0,
    }
}

/// Relies on tokio::sync::broadcast::Sender::subscribe: creates a new consumer
/// view of the bus that sees only signals published after this call, never a
/// replay of earlier ones.
#[verifier::external_body]
pub(crate) fn subscribe_bus(tx: &tokio::sync::broadcast::Sender<Signal>) -> (rx: tokio::sync::broadcast::Receiver<Signal>)
{
    tx.subscribe()
}

/// Relies on tokio::sync::broadcast::Receiver::try_recv: returns the next
/// pending signal for this consumer, or nothing when its queue is empty, when
/// it lagged past dropped entries, or when the producer side is gone. The call
/// never blocks. What comes back depends on what was published since the
/// consumer subscribed, so nothing more is stated of it; every caller must
/// handle every outcome.
#[verifier::external_body]
pub fn try_receive(rx: &mut tokio::sync::broadcast::Receiver<Signal>) -> (next: Option<Signal>)
{
    match rx.try_recv() {
        Ok(s) => Some(s),
        Err(_) => None,
    }
}

} // verus!

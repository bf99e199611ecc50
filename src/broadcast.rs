//! The room's fan-out point: tokio's bounded broadcast channel.

use vstd::prelude::*;
use crate::event::Event;

verus! {

#[verifier::external_type_specification]
#[verifier::external_body]
#[verifier::reject_recursive_types(T)]
pub struct ExBroadcastSender<T>(tokio::sync::broadcast::Sender<T>);

#[verifier::external_type_specification]
#[verifier::external_body]
#[verifier::reject_recursive_types(T)]
pub struct ExBroadcastReceiver<T>(tokio::sync::broadcast::Receiver<T>);

/// Buffer size of a room's broadcast channel.
pub const BROADCAST_CHANNEL_CAPACITY: usize = 100;

/// Relies on tokio::sync::broadcast::channel: a fresh channel with room for
/// `BROADCAST_CHANNEL_CAPACITY` events (it panics only on a capacity of 0).
/// The initial receiver is dropped; subscribers come from `subscribe`.
#[verifier::external_body]
pub(crate) fn new_channel() -> (tx: tokio::sync::broadcast::Sender<Event>) {
    let (tx, _) = tokio::sync::broadcast::channel(BROADCAST_CHANNEL_CAPACITY);
    tx
}

/// Relies on tokio::sync::broadcast::Sender::subscribe: a receiver of every
/// event sent after this call.
#[verifier::external_body]
pub(crate) fn subscribe(tx: &tokio::sync::broadcast::Sender<Event>) -> (rx:
    tokio::sync::broadcast::Receiver<Event>) {
    tx.subscribe()
}

/// Relies on the `Clone` impl of tokio::sync::broadcast::Sender: another
/// sending end of the same channel.
#[verifier::external_body]
pub(crate) fn clone_sender(tx: &tokio::sync::broadcast::Sender<Event>) -> (r:
    tokio::sync::broadcast::Sender<Event>) {
    tx.clone()
}

/// Relies on tokio::sync::broadcast::Sender::send: hands the event to every
/// current receiver; with no receiver the event is dropped, which is no error here.
#[verifier::external_body]
pub(crate) fn publish(tx: &tokio::sync::broadcast::Sender<Event>, event: Event) {
    let _ = tx.send(event);
}

} // verus!

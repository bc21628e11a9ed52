//! The two one-shot latches of a node, carried by `tokio` watch channels.

use tokio::sync::watch::{Receiver, Sender};
use vstd::prelude::*;

verus! {

/// The sending half of a `tokio` watch channel, carried through unopened.
#[verifier::external_type_specification]
#[verifier::external_body]
#[verifier::reject_recursive_types(T)]
pub struct ExSender<T>(tokio::sync::watch::Sender<T>);

/// The receiving half of a `tokio` watch channel, carried through unopened.
#[verifier::external_type_specification]
#[verifier::external_body]
#[verifier::reject_recursive_types(T)]
pub struct ExReceiver<T>(tokio::sync::watch::Receiver<T>);

/// An observer of the stop latch. A task awaits the edge on the receiver inside.
pub struct StopReceiver(pub Receiver<bool>);

/// Calls `tokio::sync::watch::channel` with `false` and keeps the sender; the
/// receiver that comes with it is dropped. Nothing is claimed of the sender.
#[verifier::external_body]
pub(crate) fn new_latch() -> (sender: Sender<bool>) {
    tokio::sync::watch::channel(false).0
}

/// Whether `receiver` is connected to `sender`: whether it is a receiving
/// half of the channel that `sender` sends on.
pub uninterp spec fn connected(receiver: Receiver<bool>, sender: Sender<bool>) -> bool;

/// Calls `Sender::subscribe`, which makes a new receiver connected to the
/// sender it is called on. That much is claimed, and no more: what the
/// receiver sees depends on what other holders of the channel do.
#[verifier::external_body]
pub(crate) fn subscribe(sender: &Sender<bool>) -> (receiver: Receiver<bool>)
    ensures
        connected(receiver, *sender),
{
    sender.subscribe()
}

/// Calls `Sender::send` with `true` and drops the answer. `tokio` refuses the
/// value when no receiver is left, and what a receiver sees of it depends on
/// the receiver, so nothing is claimed.
#[verifier::external_body]
pub(crate) fn fire(sender: &Sender<bool>) {
    sender.send(true).ok();
}

/// Calls `tokio::runtime::Handle::try_current` and tells whether it found a
/// runtime on this thread. The answer depends on the caller's surroundings,
/// so nothing is claimed of it.
#[verifier::external_body]
pub(crate) fn ambient_executor_detected() -> (detected: bool) {
    tokio::runtime::Handle::try_current().is_ok()
}

} // verus!

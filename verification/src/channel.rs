//! The event channel. Its two ends belong to `crossbeam_channel`; nothing
//! here is proved of them, and what is claimed is said item by item.

use crate::input::InputEvent;
use crossbeam_channel::{Receiver, SendError, Sender};
use vstd::prelude::*;

verus! {

/// `crossbeam_channel::Sender`, the sending end of a channel, carried as an
/// opaque value.
#[verifier::external_type_specification]
#[verifier::external_body]
#[verifier::reject_recursive_types(T)]
pub struct ExSender<T>(crossbeam_channel::Sender<T>);

/// `crossbeam_channel::Receiver`, the receiving end of a channel, carried as
/// an opaque value.
#[verifier::external_type_specification]
#[verifier::external_body]
#[verifier::reject_recursive_types(T)]
pub struct ExReceiver<T>(crossbeam_channel::Receiver<T>);

/// Calls `Sender::send`, which waits while a bounded channel is full and
/// returns once the event is queued or the channel is disconnected. Whether
/// the channel takes the event depends on its other end, so the contract
/// claims only this: an event that comes back is the very event that was
/// handed in, as the documentation of `send` says of its error.
#[verifier::external_body]
pub(crate) fn send_event(
    tx: &Sender<InputEvent>,
    event: InputEvent,
) -> (outcome: Result<(), InputEvent>)
    ensures
        outcome matches Err(back) ==> back == event,
{
    match tx.send(event) {
        Ok(()) => Ok(()),
        Err(SendError(back)) => Err(back),
    }
}

/// Calls `Receiver::recv_timeout` with a timeout of `secs` seconds and hands
/// on the event that arrived, if one did before the time ran out and while
/// the channel was connected. What arrives depends on the senders, so
/// nothing is claimed of the answer.
#[verifier::external_body]
pub(crate) fn recv_event(rx: &Receiver<InputEvent>, secs: u64) -> (event: Option<InputEvent>) {
    rx.recv_timeout(std::time::Duration::from_secs(secs)).ok()
}

} // verus!

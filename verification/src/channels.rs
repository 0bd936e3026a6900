//! Trusted boundary around `crossbeam_channel`.
//!
//! The recycling transport and the broadcaster queue move owned values
//! between threads through unbounded channels. The channel endpoints are
//! opaque to the verifier; every operation on them goes through one of the
//! small wrappers in this module, each of which states only what the
//! channel library documents of that one call.

use vstd::prelude::*;

verus! {

/// `crossbeam_channel::Sender`, declared so that endpoint values can be
/// held in fields and passed around. The verifier sees nothing inside it.
#[verifier::external_type_specification]
#[verifier::external_body]
#[verifier::reject_recursive_types(T)]
pub struct ExSender<T>(crossbeam_channel::Sender<T>);

/// `crossbeam_channel::Receiver`, declared for the same reason.
#[verifier::external_type_specification]
#[verifier::external_body]
#[verifier::reject_recursive_types(T)]
pub struct ExReceiver<T>(crossbeam_channel::Receiver<T>);

/// Outcome of a non-blocking poll of a channel's receiving half.
pub enum PollOutcome<T> {
    /// A message was ready and has been taken out of the channel.
    Item(T),
    /// No message was ready; the sending half may still deliver later.
    Empty,
    /// The channel is empty and every sending half has been dropped.
    Closed,
}

/// Relies on `crossbeam_channel::unbounded`: returns the two connected
/// halves of a fresh unbounded first-in-first-out channel.
#[verifier::external_body]
pub(crate) fn new_channel<T>() -> (crossbeam_channel::Sender<T>, crossbeam_channel::Receiver<T>) {
    crossbeam_channel::unbounded()
}

/// Relies on `crossbeam_channel::Sender::send`: on an unbounded channel it
/// never blocks; it fails, handing the message back, exactly when every
/// receiving half of the channel has been dropped.
#[verifier::external_body]
pub(crate) fn send_through<T>(tx: &crossbeam_channel::Sender<T>, msg: T) -> (r: Result<(), T>)
    ensures
        r matches Err(m) ==> m == msg,
{
    tx.send(msg).map_err(|e| e.0)
}

/// Relies on `crossbeam_channel::Receiver::try_recv`: it never blocks;
/// `Empty` means no message was ready, `Closed` means the channel is empty
/// and every sending half has been dropped (queued messages are still
/// delivered before `Closed` is reported).
#[verifier::external_body]
pub(crate) fn poll_channel<T>(rx: &crossbeam_channel::Receiver<T>) -> PollOutcome<T> {
    match rx.try_recv() {
        Ok(v) => PollOutcome::Item(v),
        Err(crossbeam_channel::TryRecvError::Empty) => PollOutcome::Empty,
        Err(crossbeam_channel::TryRecvError::Disconnected) => PollOutcome::Closed,
    }
}

/// Relies on `crossbeam_channel::Receiver::recv`: blocks until a message
/// arrives (`Some`) or the channel is empty with every sending half
/// dropped (`None`).
#[verifier::external_body]
pub(crate) fn wait_on_channel<T>(rx: &crossbeam_channel::Receiver<T>) -> Option<T> {
    rx.recv().ok()
}

/// Relies on `crossbeam_channel::Sender::clone`: the clone feeds the same
/// channel as the original.
#[verifier::external_body]
pub(crate) fn clone_sender<T>(tx: &crossbeam_channel::Sender<T>) -> crossbeam_channel::Sender<T> {
    tx.clone()
}

} // verus!

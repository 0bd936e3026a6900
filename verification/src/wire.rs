//! The message envelope and the broadcaster's outbound queue.
//!
//! Every telemetry message on the wire is a self-describing binary frame
//! encoding the pair of a stable stream identifier and a payload. Frames
//! are handed to the broadcaster through [`Forwarder::forward`], which
//! only enqueues and never blocks; delivery is at most once, best effort.

use vstd::prelude::*;

use crate::channels::{clone_sender, new_channel, send_through};

verus! {

/// Why a send did not go out.
#[derive(Debug, Clone, Copy, PartialEq, Eq, Structural)]
pub enum SendFailed {
    /// The payload could not be encoded.
    Encode,
    /// The broadcaster's outbound queue has been torn down.
    QueueClosed,
}

/// The wire frame for a byte payload: the compact binary encoding of the
/// two-element array `[identifier, payload]`. A function of the two
/// arguments alone; stating the encoding itself would reproduce the
/// serialization format, so it is only named here.
pub uninterp spec fn envelope_bytes_of(identifier: Seq<char>, payload: Seq<u8>) -> Seq<u8>;

/// The wire frame for a numeric rate payload: the compact binary encoding
/// of the two-element array `[identifier, rate_millis]`. A function of the
/// two arguments alone.
pub uninterp spec fn envelope_rate_of(identifier: Seq<char>, rate_millis: u64) -> Seq<u8>;

/// Relies on `rmp_serde::to_vec`: the compact MessagePack encoding of the
/// pair `(identifier, payload)`, named `envelope_bytes_of`.
#[verifier::external_body]
fn encode_envelope_bytes(identifier: &str, payload: &[u8]) -> (r: Result<Vec<u8>, SendFailed>)
    ensures
        r matches Ok(v) ==> v@ == envelope_bytes_of(identifier@, payload@),
        r matches Err(e) ==> e == SendFailed::Encode,
{
    rmp_serde::to_vec(&(identifier, payload)).map_err(|_| SendFailed::Encode)
}

/// Relies on `rmp_serde::to_vec`: the compact MessagePack encoding of the
/// pair `(identifier, rate_millis)`, named `envelope_rate_of`.
#[verifier::external_body]
fn encode_envelope_rate(identifier: &str, rate_millis: u64) -> (r: Result<Vec<u8>, SendFailed>)
    ensures
        r matches Ok(v) ==> v@ == envelope_rate_of(identifier@, rate_millis),
        r matches Err(e) ==> e == SendFailed::Encode,
{
    rmp_serde::to_vec(&(identifier, rate_millis)).map_err(|_| SendFailed::Encode)
}

/// A handle on the broadcaster's outbound queue, shared by every sender;
/// any thread may forward through its own clone of it.
pub struct Forwarder {
    queue: crossbeam_channel::Sender<Vec<u8>>,
}

impl Forwarder {
    /// Enqueue one wire frame for the broadcaster. Never blocks beyond
    /// enqueueing; fails only if the queue has been torn down.
    pub fn forward(&self, frame: Vec<u8>) -> (r: Result<(), SendFailed>)
        ensures
            r matches Err(e) ==> e == SendFailed::QueueClosed,
    {
        match send_through(&self.queue, frame) {
            Ok(()) => Ok(()),
            Err(_) => Err(SendFailed::QueueClosed),
        }
    }

    /// Another handle on the same queue, for another sender or thread.
    pub fn duplicate(&self) -> Forwarder {
        Forwarder { queue: clone_sender(&self.queue) }
    }

    /// Encode the pair of this identifier and a byte payload and enqueue
    /// the frame: exactly the frame `envelope_bytes_of` names goes out.
    pub fn forward_bytes(&self, identifier: &str, payload: &[u8]) -> (r: Result<(), SendFailed>)
        ensures
            r matches Err(e) ==> e == SendFailed::Encode || e == SendFailed::QueueClosed,
    {
        match encode_envelope_bytes(identifier, payload) {
            Ok(frame) => self.forward(frame),
            Err(e) => Err(e),
        }
    }

    /// Encode the pair of this identifier and a measured rate and enqueue
    /// the frame: exactly the frame `envelope_rate_of` names goes out.
    pub fn forward_rate(&self, identifier: &str, rate_millis: u64) -> (r: Result<(), SendFailed>)
        ensures
            r matches Err(e) ==> e == SendFailed::Encode || e == SendFailed::QueueClosed,
    {
        match encode_envelope_rate(identifier, rate_millis) {
            Ok(frame) => self.forward(frame),
            Err(e) => Err(e),
        }
    }
}

/// Create the broadcaster's outbound queue: the forwarding handle that the
/// senders share and the draining end that the broadcast loop owns.
pub fn new_broadcast_queue() -> (Forwarder, crossbeam_channel::Receiver<Vec<u8>>) {
    let (tx, rx) = new_channel();
    (Forwarder { queue: tx }, rx)
}

} // verus!

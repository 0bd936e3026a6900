//! The broadcaster's control logic as an explicit state machine.
//!
//! The broadcaster owns the draining end of the outbound queue, accepts
//! one network client at a time, and writes each dequeued frame to that
//! client until it disconnects or the global stop flag is raised. The
//! loop that binds the listener, performs the handshake upgrade, waits on
//! the queue and writes to the socket lives at the process edge; every
//! decision it takes comes from the two step functions here, so the
//! recovery and escalation policy is pinned down exactly: a disconnected
//! client returns the broadcaster to listening, any other failure raises
//! the global stop flag, and an observed stop flag ends the loop quietly.

use vstd::prelude::*;

verus! {

/// Which of the two working states the broadcaster is in.
#[derive(Debug, Clone, Copy, PartialEq, Eq, Structural)]
pub enum ServerPhase {
    /// Polling for an incoming connection, sleeping briefly between polls.
    Listening,
    /// Serving exactly one connected client.
    Connected,
}

/// What the loop observed while listening.
#[derive(Debug, Clone, Copy, PartialEq, Eq, Structural)]
pub enum AcceptEvent {
    /// The non-blocking accept had no pending connection.
    WouldBlock,
    /// Accepting a connection failed with a real error.
    AcceptFailed,
    /// A client connected but the handshake upgrade failed.
    HandshakeFailed,
    /// A client connected and the handshake upgrade succeeded.
    ClientReady,
    /// The global stop flag was observed set.
    StopRequested,
}

/// What the loop observed while serving a client.
#[derive(Debug, Clone, Copy, PartialEq, Eq, Structural)]
pub enum ConnectedEvent {
    /// The bounded wait on the outbound queue timed out with no frame.
    QueueTimedOut,
    /// A frame was dequeued and is ready to be written.
    FrameReady,
    /// The outbound queue has been torn down.
    QueueTornDown,
    /// The last write went through.
    WriteOk,
    /// The last write failed because the client disconnected.
    ClientGone,
    /// The last write failed for any other reason.
    WriteFailed,
    /// The global stop flag was observed set.
    StopRequested,
}

/// What the loop must do next.
#[derive(Debug, Clone, Copy, PartialEq, Eq, Structural)]
pub enum ServerAction {
    /// Sleep briefly, then poll for a connection again.
    PollAgain,
    /// Wait on the outbound queue, bounded so the stop flag is re-checked.
    AwaitFrame,
    /// Write the dequeued frame to the client.
    WriteFrame,
    /// Raise the global stop flag and end the broadcaster.
    FailStop,
    /// End the broadcaster without raising anything further.
    Quit,
}

/// The transition taken on each observation while listening.
pub open spec fn spec_listening_step(ev: AcceptEvent) -> (ServerPhase, ServerAction) {
    match ev {
        AcceptEvent::WouldBlock => (ServerPhase::Listening, ServerAction::PollAgain),
        AcceptEvent::AcceptFailed => (ServerPhase::Listening, ServerAction::FailStop),
        AcceptEvent::HandshakeFailed => (ServerPhase::Listening, ServerAction::FailStop),
        AcceptEvent::ClientReady => (ServerPhase::Connected, ServerAction::AwaitFrame),
        AcceptEvent::StopRequested => (ServerPhase::Listening, ServerAction::Quit),
    }
}

/// The transition taken on each observation while serving a client.
pub open spec fn spec_connected_step(ev: ConnectedEvent) -> (ServerPhase, ServerAction) {
    match ev {
        ConnectedEvent::QueueTimedOut => (ServerPhase::Connected, ServerAction::AwaitFrame),
        ConnectedEvent::FrameReady => (ServerPhase::Connected, ServerAction::WriteFrame),
        ConnectedEvent::QueueTornDown => (ServerPhase::Connected, ServerAction::FailStop),
        ConnectedEvent::WriteOk => (ServerPhase::Connected, ServerAction::AwaitFrame),
        ConnectedEvent::ClientGone => (ServerPhase::Listening, ServerAction::PollAgain),
        ConnectedEvent::WriteFailed => (ServerPhase::Connected, ServerAction::FailStop),
        ConnectedEvent::StopRequested => (ServerPhase::Connected, ServerAction::Quit),
    }
}

/// Decide the next phase and action while listening.
pub fn listening_step(ev: AcceptEvent) -> (r: (ServerPhase, ServerAction))
    ensures
        r == spec_listening_step(ev),
{
    match ev {
        AcceptEvent::WouldBlock => (ServerPhase::Listening, ServerAction::PollAgain),
        AcceptEvent::AcceptFailed => (ServerPhase::Listening, ServerAction::FailStop),
        AcceptEvent::HandshakeFailed => (ServerPhase::Listening, ServerAction::FailStop),
        AcceptEvent::ClientReady => (ServerPhase::Connected, ServerAction::AwaitFrame),
        AcceptEvent::StopRequested => (ServerPhase::Listening, ServerAction::Quit),
    }
}

/// Decide the next phase and action while serving a client.
pub fn connected_step(ev: ConnectedEvent) -> (r: (ServerPhase, ServerAction))
    ensures
        r == spec_connected_step(ev),
{
    match ev {
        ConnectedEvent::QueueTimedOut => (ServerPhase::Connected, ServerAction::AwaitFrame),
        ConnectedEvent::FrameReady => (ServerPhase::Connected, ServerAction::WriteFrame),
        ConnectedEvent::QueueTornDown => (ServerPhase::Connected, ServerAction::FailStop),
        ConnectedEvent::WriteOk => (ServerPhase::Connected, ServerAction::AwaitFrame),
        ConnectedEvent::ClientGone => (ServerPhase::Listening, ServerAction::PollAgain),
        ConnectedEvent::WriteFailed => (ServerPhase::Connected, ServerAction::FailStop),
        ConnectedEvent::StopRequested => (ServerPhase::Connected, ServerAction::Quit),
    }
}

/// A disconnected client is the one recovered failure: it is the only
/// observation that sends the broadcaster back to listening, and it never
/// raises the stop flag; every other failure while serving escalates.
pub proof fn lemma_client_disconnect_recovers(ev: ConnectedEvent)
    ensures
        spec_connected_step(ev).0 is Listening <==> ev is ClientGone,
        ev is ClientGone ==> spec_connected_step(ev).1 != ServerAction::FailStop,
{
}

/// Once the stop flag is observed, both loops end without writing or
/// accepting anything further.
pub proof fn lemma_stop_ends_loop()
    ensures
        spec_listening_step(AcceptEvent::StopRequested).1 is Quit,
        spec_connected_step(ConnectedEvent::StopRequested).1 is Quit,
{
}

} // verus!

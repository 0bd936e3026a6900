use quasar_telemetry::lifecycle::{is_stopped, new_stop_flag, stop_all};
use quasar_telemetry::server::{
    connected_step, listening_step, AcceptEvent, ConnectedEvent, ServerAction, ServerPhase,
};

#[test]
fn listening_transitions() {
    assert_eq!(
        listening_step(AcceptEvent::WouldBlock),
        (ServerPhase::Listening, ServerAction::PollAgain)
    );
    assert_eq!(
        listening_step(AcceptEvent::AcceptFailed),
        (ServerPhase::Listening, ServerAction::FailStop)
    );
    assert_eq!(
        listening_step(AcceptEvent::HandshakeFailed),
        (ServerPhase::Listening, ServerAction::FailStop)
    );
    assert_eq!(
        listening_step(AcceptEvent::ClientReady),
        (ServerPhase::Connected, ServerAction::AwaitFrame)
    );
    assert_eq!(
        listening_step(AcceptEvent::StopRequested),
        (ServerPhase::Listening, ServerAction::Quit)
    );
}

#[test]
fn connected_transitions() {
    assert_eq!(
        connected_step(ConnectedEvent::QueueTimedOut),
        (ServerPhase::Connected, ServerAction::AwaitFrame)
    );
    assert_eq!(
        connected_step(ConnectedEvent::FrameReady),
        (ServerPhase::Connected, ServerAction::WriteFrame)
    );
    assert_eq!(
        connected_step(ConnectedEvent::QueueTornDown),
        (ServerPhase::Connected, ServerAction::FailStop)
    );
    assert_eq!(
        connected_step(ConnectedEvent::WriteOk),
        (ServerPhase::Connected, ServerAction::AwaitFrame)
    );
    assert_eq!(
        connected_step(ConnectedEvent::ClientGone),
        (ServerPhase::Listening, ServerAction::PollAgain)
    );
    assert_eq!(
        connected_step(ConnectedEvent::WriteFailed),
        (ServerPhase::Connected, ServerAction::FailStop)
    );
    assert_eq!(
        connected_step(ConnectedEvent::StopRequested),
        (ServerPhase::Connected, ServerAction::Quit)
    );
}

#[test]
fn stop_flag_round_trip() {
    let flag = new_stop_flag();
    let observer = flag.clone();
    assert!(!is_stopped(&flag));
    assert!(!is_stopped(&observer));
    stop_all(&flag);
    assert!(is_stopped(&flag));
    assert!(is_stopped(&observer));
}

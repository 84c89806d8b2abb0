use req_it_gui::actors::owned_frame::{OpCode, OwnedFrame};
use req_it_gui::actors::web_socket_actor::{
    continue_or_not, ActorAction, ActorEvent, ActorPhase, AfterDisconnect, ConnectedLoopExitReason,
    WebSocketActorMachine, CLOSE_FRAME_SENT, CONNECTION_SUCCEEDED, ERROR_EMPTY_URL_PROVIDED,
    ERROR_NO_SERVER_CONNECTED, PING_RECEIVED, PING_SENT, PONG_RECEIVED, SERVER_DISCONNECTED,
    SERVER_DISCONNECTION_FORCED, TIME_ELAPSED_FORCED_CLOSURE_NOTICE,
};
use req_it_gui::actors::web_socket_actor_messages::{ReadFrameProcessorActorInputMessage, WebSocketActorInputMessage};

fn said(a: &ActorAction) -> (String, bool) {
    match a {
        ActorAction::Report(ReadFrameProcessorActorInputMessage::ClientMessage(m), shutdown) => (m.as_str().to_string(), *shutdown),
        _ => panic!("not a report"),
    }
}

fn frame(opcode: OpCode, payload: &[u8]) -> OwnedFrame {
    OwnedFrame { fin: true, opcode, payload: payload.to_vec() }
}

fn input(m: WebSocketActorInputMessage) -> ActorEvent {
    ActorEvent::Input(Some(m))
}

fn connected() -> WebSocketActorMachine {
    let (m, actions) = WebSocketActorMachine::new().step(input(WebSocketActorInputMessage::ConnectTo("localhost:3000".to_string())));
    assert!(matches!(&actions[0], ActorAction::OpenConnection(a) if a == "localhost:3000"));
    let (m, actions) = m.step(ActorEvent::ConnectOutcome(Ok(())));
    assert_eq!(said(&actions[0]), (CONNECTION_SUCCEEDED.to_string(), false));
    assert!(matches!(m.phase, ActorPhase::Connected));
    m
}

#[test]
fn should_continue_single() {
    assert!(!ConnectedLoopExitReason::ActorIOClientDisconnected.should_continue());
    assert!(ConnectedLoopExitReason::ServerDisconnectedOrConnectionError.should_continue());
    assert!(ConnectedLoopExitReason::InvalidInput.should_continue());
    assert!(continue_or_not(&Some(ConnectedLoopExitReason::InvalidInput)));
    assert!(!continue_or_not(&Some(ConnectedLoopExitReason::ActorIOClientDisconnected)));
}

#[test]
fn empty_address_and_refused_requests() {
    let (m, actions) = WebSocketActorMachine::new().step(input(WebSocketActorInputMessage::ConnectTo(String::new())));
    assert!(matches!(m.phase, ActorPhase::NotConnected));
    assert_eq!(said(&actions[0]), (ERROR_EMPTY_URL_PROVIDED.to_string(), false));
    let (m, actions) = m.step(input(WebSocketActorInputMessage::SendPing));
    assert!(matches!(m.phase, ActorPhase::NotConnected));
    assert_eq!(said(&actions[0]), (ERROR_NO_SERVER_CONNECTED.to_string(), false));
}

#[test]
fn failed_connection() {
    let (m, _) = WebSocketActorMachine::new().step(input(WebSocketActorInputMessage::ConnectTo("nowhere".to_string())));
    let (m, actions) = m.step(ActorEvent::ConnectOutcome(Err("dns error".to_string())));
    assert!(matches!(m.phase, ActorPhase::NotConnected));
    assert!(m.url.is_none());
    assert_eq!(said(&actions[0]), ("dns error".to_string(), false));
}

#[test]
fn data_frames_go_down_the_pipeline() {
    let m = connected();
    let (m, actions) = m.step(ActorEvent::ReadOutcome(Ok(frame(OpCode::Binary, &[1, 2]))));
    assert_eq!(actions.len(), 1);
    assert!(matches!(&actions[0], ActorAction::Report(ReadFrameProcessorActorInputMessage::Frame(f), false) if f.payload == vec![1, 2]));
    assert!(matches!(m.phase, ActorPhase::Connected));
    assert_eq!(m.url.as_deref(), Some("localhost:3000"));
}

#[test]
fn ping_and_pong_end_the_connected_loop() {
    let (m, actions) = connected().step(ActorEvent::ReadOutcome(Ok(frame(OpCode::Ping, b""))));
    assert_eq!(said(&actions[0]), (PING_RECEIVED.to_string(), false));
    assert!(matches!(actions[1], ActorAction::DropConnection));
    assert!(matches!(m.phase, ActorPhase::NotConnected));
    let (_, actions) = connected().step(ActorEvent::ReadOutcome(Ok(frame(OpCode::Pong, b""))));
    assert_eq!(said(&actions[0]), (PONG_RECEIVED.to_string(), false));
}

#[test]
fn send_ping_reports_and_drops() {
    let (m, actions) = connected().step(input(WebSocketActorInputMessage::SendPing));
    assert!(matches!(actions[0], ActorAction::SendPingFrame));
    let (m, actions) = m.step(ActorEvent::PingOutcome(Ok(())));
    assert_eq!(said(&actions[0]), (PING_SENT.to_string(), false));
    assert!(matches!(actions[1], ActorAction::DropConnection));
    assert!(matches!(m.phase, ActorPhase::NotConnected));
}

#[test]
fn read_error_forces_disconnection() {
    let (m, actions) = connected().step(ActorEvent::ReadOutcome(Err("eof".to_string())));
    assert_eq!(actions.len(), 3);
    assert_eq!(said(&actions[0]), ("eof".to_string(), false));
    assert!(matches!(actions[1], ActorAction::Shutdown));
    assert_eq!(said(&actions[2]), (SERVER_DISCONNECTION_FORCED.to_string(), false));
    assert!(matches!(m.phase, ActorPhase::NotConnected));
    assert!(m.url.is_none());
}

#[test]
fn server_close_is_answered_and_uncounted() {
    let (m, actions) = connected().step(ActorEvent::ReadOutcome(Ok(frame(OpCode::Close, b""))));
    assert!(matches!(actions[0], ActorAction::UncountReadFrame));
    assert!(matches!(actions[1], ActorAction::SendCloseFrame));
    assert!(matches!(m.phase, ActorPhase::SendingClose(true, AfterDisconnect::Finish)));
    let (m, actions) = m.step(ActorEvent::CloseFrameOutcome(Ok(())));
    assert_eq!(actions.len(), 3);
    assert_eq!(said(&actions[0]), (CLOSE_FRAME_SENT.to_string(), true));
    assert!(matches!(actions[1], ActorAction::Shutdown));
    assert_eq!(said(&actions[2]), (SERVER_DISCONNECTED.to_string(), false));
    assert!(matches!(m.phase, ActorPhase::NotConnected));
}

#[test]
fn user_disconnect_times_out_and_shuts_down() {
    let (m, _) = connected().step(input(WebSocketActorInputMessage::Disconnect));
    let (m, actions) = m.step(ActorEvent::CloseFrameOutcome(Ok(())));
    assert!(matches!(actions[1], ActorAction::StartCloseReplyTimer));
    let (m, actions) = m.step(ActorEvent::CloseReplyTimedOut);
    assert_eq!(actions.len(), 3);
    assert_eq!(said(&actions[0]), (TIME_ELAPSED_FORCED_CLOSURE_NOTICE.to_string(), true));
    assert!(matches!(actions[1], ActorAction::Shutdown));
    assert_eq!(said(&actions[2]), (SERVER_DISCONNECTED.to_string(), false));
    assert!(matches!(m.phase, ActorPhase::NotConnected));
    assert!(m.url.is_none());
}

#[test]
fn user_disconnect_close_reply_ends_the_wait() {
    let (m, _) = connected().step(input(WebSocketActorInputMessage::Disconnect));
    let (m, _) = m.step(ActorEvent::CloseFrameOutcome(Ok(())));
    let (m, actions) = m.step(ActorEvent::ReadOutcome(Ok(frame(OpCode::Close, b""))));
    assert!(matches!(actions[0], ActorAction::UncountReadFrame));
    assert!(matches!(actions[1], ActorAction::Shutdown));
    assert!(matches!(m.phase, ActorPhase::NotConnected));
}

#[test]
fn connect_elsewhere_after_close_reply_timeout() {
    let (m, _) = connected().step(input(WebSocketActorInputMessage::ConnectTo("other:2".to_string())));
    let (m, _) = m.step(ActorEvent::CloseFrameOutcome(Ok(())));
    let (m, actions) = m.step(ActorEvent::CloseReplyTimedOut);
    assert_eq!(actions.len(), 4);
    assert!(matches!(actions[1], ActorAction::Shutdown));
    assert!(matches!(&actions[3], ActorAction::OpenConnection(a) if a == "other:2"));
    assert!(matches!(m.phase, ActorPhase::Connecting(_)));
}

#[test]
fn reconnect_after_disconnection() {
    let (m, _) = connected().step(input(WebSocketActorInputMessage::ConnectTo("other:1".to_string())));
    let (m, _) = m.step(ActorEvent::CloseFrameOutcome(Ok(())));
    let (m, actions) = m.step(ActorEvent::ReadOutcome(Ok(frame(OpCode::Close, b""))));
    assert!(matches!(&actions[3], ActorAction::OpenConnection(a) if a == "other:1"));
    assert!(matches!(m.phase, ActorPhase::Connecting(_)));
}

#[test]
fn writes_and_write_errors() {
    let (m, actions) = connected().step(input(WebSocketActorInputMessage::WriteFrame(frame(OpCode::Text, b"x"))));
    assert!(matches!(actions[0], ActorAction::WriteFrame(_)));
    let (m2, actions) = m.step(ActorEvent::WriteOutcome(Ok(())));
    assert!(actions.is_empty());
    assert!(matches!(m2.phase, ActorPhase::Connected));
    let (m3, _) = m2.step(input(WebSocketActorInputMessage::WriteFrame(frame(OpCode::Text, b"y"))));
    let (m3, actions) = m3.step(ActorEvent::WriteOutcome(Err("closed".to_string())));
    assert_eq!(actions.len(), 3);
    assert!(matches!(m3.phase, ActorPhase::NotConnected));
    assert_eq!(ActorAction::Shutdown.failure_reason(), None);
    assert_eq!(actions[0].failure_reason(), Some(ConnectedLoopExitReason::ActorIOClientDisconnected));
}

#[test]
fn stops_when_input_closes() {
    let (m, actions) = connected().step(ActorEvent::Input(None));
    assert!(m.is_stopped());
    assert!(actions.is_empty());
}

#[test]
fn data_frame_while_disconnecting_is_forwarded_with_shutdown_on_failure() {
    let (m, _) = connected().step(input(WebSocketActorInputMessage::Disconnect));
    let (m, _) = m.step(ActorEvent::CloseFrameOutcome(Ok(())));
    let (m, actions) = m.step(ActorEvent::ReadOutcome(Ok(frame(OpCode::Text, b"late"))));
    assert_eq!(actions.len(), 1);
    assert!(matches!(&actions[0], ActorAction::Report(ReadFrameProcessorActorInputMessage::Frame(f), true) if f.payload == b"late".to_vec()));
    assert!(matches!(m.phase, ActorPhase::AwaitingCloseReply(_)));
}

use req_it_gui::actors::owned_frame::{OpCode, OwnedFrame};
use req_it_gui::actors::web_socket_actor_messages::{
    ReadFrameProcessorActorInputMessage, WebSocketActorInputMessage, WebSocketActorOutputClientMessage,
};
use req_it_gui::actors::websockets::fastwebsockets::web_socket_actor::{
    continue_or_not, host_and_port, AfterDisconnect, ConnectedLoopExitReason, ParsedUrl, ReadWebSocketActorMachine,
    ReaderAction, ReaderEvent, ReaderInput, ReaderPhase, ReaderSelection, WebSocketActorMachine, WriterAction,
    WriterEvent, WriterPhase, CLOSE_FRAME_RECEIVED, CLOSE_FRAME_SENT, CONNECTION_SUCCEEDED,
    ERROR_EMPTY_URL_PROVIDED, ERROR_NO_SERVER_CONNECTED, HOST_NOT_FOUND, PING_FRAME_RECEIVED, SERVER_DISCONNECTED,
    TIME_ELAPSED_FORCED_CLOSURE_NOTICE,
};

fn report_text(a: &WriterAction) -> (&'static str, String) {
    match a {
        WriterAction::Report(ReadFrameProcessorActorInputMessage::ClientMessage(m)) => {
            let kind = match m {
                WebSocketActorOutputClientMessage::ConnectionSucceed(_) => "ConnectionSucceed",
                WebSocketActorOutputClientMessage::ConnectionError(_) => "ConnectionError",
                WebSocketActorOutputClientMessage::Disconnected(_) => "Disconnected",
                WebSocketActorOutputClientMessage::Disconnecting(_) => "Disconnecting",
                WebSocketActorOutputClientMessage::NotConnected(_) => "NotConnected",
                _ => "other",
            };
            (kind, m.as_str().to_string())
        }
        _ => panic!("not a client report"),
    }
}

fn connect(url: &str) -> (WebSocketActorMachine, Vec<WriterAction>) {
    WebSocketActorMachine::new().step(WriterEvent::Input(Some(WebSocketActorInputMessage::ConnectTo(url.to_string()))))
}

fn connected() -> WebSocketActorMachine {
    let (m, _) = connect("ws://localhost:3000/chat");
    let (m, _) = m.step(WriterEvent::ConnectOutcome(Ok(())));
    m
}

fn frame(opcode: OpCode, payload: &[u8]) -> OwnedFrame {
    OwnedFrame { fin: true, opcode, payload: payload.to_vec() }
}

#[test]
fn should_continue_only_without_dropped_actor() {
    assert!(!ConnectedLoopExitReason::ReadFrameProcessorActorDropped.should_continue());
    assert!(!ConnectedLoopExitReason::ReadWebSocketActorDropped.should_continue());
    assert!(ConnectedLoopExitReason::ServerDisconnectedOrConnectionError.should_continue());
    assert!(ConnectedLoopExitReason::InvalidInput.should_continue());
    assert!(continue_or_not(&None));
    assert!(!continue_or_not(&Some(ConnectedLoopExitReason::ReadWebSocketActorDropped)));
}

#[test]
fn host_and_port_defaults_to_80() {
    let url = ParsedUrl { serialization: "ws://a/".to_string(), host: Some("a".to_string()), port: None };
    assert_eq!(host_and_port(&url), Ok("a:80".to_string()));
    let url = ParsedUrl { serialization: "ws://a:8080/".to_string(), host: Some("a".to_string()), port: Some(8080) };
    assert_eq!(host_and_port(&url), Ok("a:8080".to_string()));
    let url = ParsedUrl { serialization: "data:x".to_string(), host: None, port: None };
    assert_eq!(host_and_port(&url), Err(HOST_NOT_FOUND.to_string()));
}

#[test]
fn empty_address_is_refused() {
    let (m, actions) = connect("");
    assert!(matches!(m.phase, WriterPhase::NotConnected));
    assert_eq!(actions.len(), 1);
    assert_eq!(report_text(&actions[0]), ("ConnectionError", ERROR_EMPTY_URL_PROVIDED.to_string()));
}

#[test]
fn unparsable_address_reports_parse_error() {
    let (m, actions) = connect("not a url");
    assert!(matches!(m.phase, WriterPhase::NotConnected));
    assert_eq!(actions.len(), 1);
    assert_eq!(report_text(&actions[0]), ("NotConnected", "relative URL without a base".to_string()));
}

#[test]
fn address_without_host_is_refused() {
    let (m, actions) = connect("mailto:someone@example.com");
    assert!(matches!(m.phase, WriterPhase::NotConnected));
    assert_eq!(report_text(&actions[0]), ("ConnectionError", HOST_NOT_FOUND.to_string()));
}

#[test]
fn good_address_opens_connection() {
    let (m, actions) = connect("ws://localhost:3000/chat");
    assert!(matches!(m.phase, WriterPhase::Connecting(_)));
    assert_eq!(actions.len(), 1);
    match &actions[0] {
        WriterAction::OpenConnection(address, uri) => {
            assert_eq!(address, "localhost:3000");
            assert_eq!(uri, "ws://localhost:3000/chat");
        }
        _ => panic!("expected OpenConnection"),
    }
    let (m, actions) = m.step(WriterEvent::ConnectOutcome(Ok(())));
    assert!(matches!(m.phase, WriterPhase::Connected));
    assert_eq!(m.url.as_ref().unwrap().serialization, "ws://localhost:3000/chat");
    assert_eq!(actions.len(), 2);
    assert!(matches!(actions[0], WriterAction::HandOverReader));
    assert_eq!(report_text(&actions[1]), ("ConnectionSucceed", CONNECTION_SUCCEEDED.to_string()));
}

#[test]
fn failed_connection_reports_error() {
    let (m, _) = connect("ws://localhost/");
    let (m, actions) = m.step(WriterEvent::ConnectOutcome(Err("refused".to_string())));
    assert!(matches!(m.phase, WriterPhase::NotConnected));
    assert!(m.url.is_none());
    assert_eq!(report_text(&actions[0]), ("ConnectionError", "refused".to_string()));
}

#[test]
fn requests_while_not_connected_are_refused() {
    for request in [WebSocketActorInputMessage::Disconnect, WebSocketActorInputMessage::WriteFrame(OwnedFrame::new())] {
        let (m, actions) = WebSocketActorMachine::new().step(WriterEvent::Input(Some(request)));
        assert!(matches!(m.phase, WriterPhase::NotConnected));
        assert_eq!(actions.len(), 1);
        assert_eq!(report_text(&actions[0]), ("NotConnected", ERROR_NO_SERVER_CONNECTED.to_string()));
    }
}

#[test]
fn closed_input_stops_actor() {
    let (m, actions) = WebSocketActorMachine::new().step(WriterEvent::Input(None));
    assert!(m.is_stopped());
    assert!(actions.is_empty());
    let (m, actions) = m.step(WriterEvent::Input(Some(WebSocketActorInputMessage::Disconnect)));
    assert!(m.is_stopped());
    assert!(actions.is_empty());
}

#[test]
fn writing_a_frame_and_failing() {
    let m = connected();
    let (m, actions) = m.step(WriterEvent::Input(Some(WebSocketActorInputMessage::WriteFrame(frame(OpCode::Text, b"hi")))));
    assert!(matches!(m.phase, WriterPhase::Writing(None)));
    assert!(matches!(&actions[0], WriterAction::WriteFrame(f) if f.payload == b"hi".to_vec()));
    let (m2, actions) = m.step(WriterEvent::WriteOutcome(Err("broken pipe".to_string())));
    assert!(matches!(m2.phase, WriterPhase::NotConnected));
    assert!(m2.url.is_none());
    assert_eq!(report_text(&actions[0]), ("ConnectionError", "broken pipe".to_string()));
}

#[test]
fn user_disconnect_waits_for_close_reply() {
    let m = connected();
    let (m, actions) = m.step(WriterEvent::Input(Some(WebSocketActorInputMessage::Disconnect)));
    assert!(matches!(actions[0], WriterAction::SendCloseFrame));
    assert!(matches!(m.phase, WriterPhase::SendingClose(false, AfterDisconnect::Finish)));
    let (m, actions) = m.step(WriterEvent::CloseFrameOutcome(Ok(())));
    assert_eq!(actions.len(), 2);
    assert_eq!(report_text(&actions[0]), ("Disconnecting", CLOSE_FRAME_SENT.to_string()));
    assert!(matches!(actions[1], WriterAction::StartCloseReplyTimer));
    // a data frame arriving meanwhile goes down the pipeline
    let (m, actions) = m.step(WriterEvent::FromReader(Some(WebSocketActorInputMessage::WriteFrame(frame(OpCode::Text, b"late")))));
    assert!(matches!(&actions[0], WriterAction::Report(ReadFrameProcessorActorInputMessage::Frame(f)) if f.payload == b"late".to_vec()));
    // the close reply ends the disconnection
    let (m, actions) = m.step(WriterEvent::FromReader(Some(WebSocketActorInputMessage::WriteFrame(frame(OpCode::Close, b"")))));
    assert_eq!(actions.len(), 4);
    match &actions[0] {
        WriterAction::Report(ReadFrameProcessorActorInputMessage::FrameAndMessage(f, msg)) => {
            assert_eq!(f.opcode, OpCode::Close);
            assert_eq!(msg.as_str(), CLOSE_FRAME_RECEIVED);
        }
        _ => panic!("expected the close frame report"),
    }
    assert!(matches!(actions[1], WriterAction::TellReaderToDisconnect));
    assert!(matches!(actions[2], WriterAction::DropWriter));
    assert_eq!(report_text(&actions[3]), ("Disconnected", SERVER_DISCONNECTED.to_string()));
    assert!(matches!(m.phase, WriterPhase::NotConnected));
    assert!(m.url.is_none());
}

#[test]
fn close_reply_timeout_forces_closure() {
    let m = connected();
    let (m, _) = m.step(WriterEvent::Input(Some(WebSocketActorInputMessage::Disconnect)));
    let (m, _) = m.step(WriterEvent::CloseFrameOutcome(Err("write failed".to_string())));
    let (m, actions) = m.step(WriterEvent::CloseReplyTimedOut);
    assert_eq!(actions.len(), 3);
    assert_eq!(report_text(&actions[0]), ("Disconnected", TIME_ELAPSED_FORCED_CLOSURE_NOTICE.to_string()));
    assert!(matches!(actions[1], WriterAction::DropWriter));
    assert_eq!(report_text(&actions[2]), ("Disconnected", SERVER_DISCONNECTED.to_string()));
    assert!(matches!(m.phase, WriterPhase::NotConnected));
}

#[test]
fn close_frame_error_is_reported_before_disconnecting() {
    let m = connected();
    let (m, _) = m.step(WriterEvent::Input(Some(WebSocketActorInputMessage::Disconnect)));
    let (_, actions) = m.step(WriterEvent::CloseFrameOutcome(Err("write failed".to_string())));
    assert_eq!(actions.len(), 3);
    assert_eq!(report_text(&actions[0]), ("ConnectionError", "write failed".to_string()));
    assert_eq!(report_text(&actions[1]), ("Disconnecting", CLOSE_FRAME_SENT.to_string()));
}

#[test]
fn ping_during_disconnection_is_reported() {
    let m = connected();
    let (m, _) = m.step(WriterEvent::Input(Some(WebSocketActorInputMessage::Disconnect)));
    let (m, _) = m.step(WriterEvent::CloseFrameOutcome(Ok(())));
    let (m, actions) = m.step(WriterEvent::FromReader(Some(WebSocketActorInputMessage::WriteFrame(frame(OpCode::Ping, b"p")))));
    match &actions[0] {
        WriterAction::Report(ReadFrameProcessorActorInputMessage::FrameAndMessage(_, msg)) => assert_eq!(msg.as_str(), PING_FRAME_RECEIVED),
        _ => panic!("expected a ping report"),
    }
    assert!(matches!(m.phase, WriterPhase::AwaitingCloseReply(_)));
    let (_, actions) = m.step(WriterEvent::FromReader(Some(WebSocketActorInputMessage::ConnectTo("ws://b/".to_string()))));
    assert_eq!(report_text(&actions[0]), ("ConnectionError", "Error: Cannot connect to ws://b/ as the client is disconnecting.".to_string()));
}

#[test]
fn reader_disconnect_during_disconnection_stops() {
    let m = connected();
    let (m, _) = m.step(WriterEvent::Input(Some(WebSocketActorInputMessage::Disconnect)));
    let (m, _) = m.step(WriterEvent::CloseFrameOutcome(Ok(())));
    let (m, actions) = m.step(WriterEvent::FromReader(Some(WebSocketActorInputMessage::Disconnect)));
    assert!(m.is_stopped());
    assert!(actions.is_empty());
}

#[test]
fn server_close_is_echoed_then_disconnects() {
    let m = connected();
    let (m, actions) = m.step(WriterEvent::FromReader(Some(WebSocketActorInputMessage::WriteFrame(frame(OpCode::Close, b"")))));
    assert!(matches!(actions[0], WriterAction::WriteFrame(_)));
    assert!(matches!(m.phase, WriterPhase::Writing(Some(true))));
    let (m, actions) = m.step(WriterEvent::WriteOutcome(Ok(())));
    assert!(matches!(actions[0], WriterAction::SendCloseFrame));
    let (m, actions) = m.step(WriterEvent::CloseFrameOutcome(Ok(())));
    assert_eq!(actions.len(), 4);
    assert_eq!(report_text(&actions[0]), ("Disconnecting", CLOSE_FRAME_SENT.to_string()));
    assert!(matches!(actions[1], WriterAction::TellReaderToDisconnect));
    assert!(matches!(actions[2], WriterAction::DropWriter));
    assert_eq!(report_text(&actions[3]), ("Disconnected", SERVER_DISCONNECTED.to_string()));
    assert!(matches!(m.phase, WriterPhase::NotConnected));
}

#[test]
fn connecting_elsewhere_disconnects_first() {
    let m = connected();
    let (m, actions) = m.step(WriterEvent::Input(Some(WebSocketActorInputMessage::ConnectTo("ws://other:9/".to_string()))));
    assert!(matches!(actions[0], WriterAction::SendCloseFrame));
    let (m, _) = m.step(WriterEvent::CloseFrameOutcome(Ok(())));
    let (m, actions) = m.step(WriterEvent::CloseReplyTimedOut);
    assert_eq!(actions.len(), 4);
    assert!(matches!(actions[1], WriterAction::DropWriter));
    assert_eq!(report_text(&actions[2]), ("Disconnected", SERVER_DISCONNECTED.to_string()));
    assert!(matches!(&actions[3], WriterAction::OpenConnection(a, _) if a == "other:9"));
    assert!(matches!(m.phase, WriterPhase::Connecting(_)));
    // a connection request from the reading actor is ignored while connected
    let c = connected();
    let (c, actions) = c.step(WriterEvent::FromReader(Some(WebSocketActorInputMessage::ConnectTo("ws://x/".to_string()))));
    assert!(actions.is_empty());
    assert!(matches!(c.phase, WriterPhase::Connected));
}

#[test]
fn action_failure_reasons() {
    assert_eq!(WriterAction::HandOverReader.failure_reason(), Some(ConnectedLoopExitReason::ReadWebSocketActorDropped));
    assert_eq!(WriterAction::TellReaderToDisconnect.failure_reason(), Some(ConnectedLoopExitReason::ReadFrameProcessorActorDropped));
    assert_eq!(WriterAction::SendCloseFrame.failure_reason(), None);
}

#[test]
fn reader_connects_reads_and_answers() {
    let mut r = ReadWebSocketActorMachine::new();
    assert!(r.step(ReaderEvent::Input(Some(ReaderInput::Disconnect))).is_empty());
    assert_eq!(r.phase, ReaderPhase::NotConnected);
    let actions = r.step(ReaderEvent::Input(Some(ReaderInput::Connected)));
    assert!(matches!(actions[0], ReaderAction::UseNewReader));
    assert_eq!(r.phase, ReaderPhase::Connected);
    let actions = r.step(ReaderEvent::Selected(
        Some(frame(OpCode::Ping, b"abc")),
        ReaderSelection::ReadFrame(Ok(frame(OpCode::Text, b"t"))),
    ));
    assert_eq!(actions.len(), 2);
    match &actions[0] {
        ReaderAction::ToWriter(WebSocketActorInputMessage::WriteFrame(f)) => {
            assert_eq!(f.opcode, OpCode::Pong);
            assert_eq!(f.payload, b"abc".to_vec());
        }
        _ => panic!("expected a pong"),
    }
    assert!(matches!(&actions[1], ReaderAction::Report(ReadFrameProcessorActorInputMessage::Frame(f)) if f.payload == b"t".to_vec()));
    let actions = r.step(ReaderEvent::Selected(Some(frame(OpCode::Close, b"bye")), ReaderSelection::Connection(None)));
    assert_eq!(actions.len(), 1);
    assert!(matches!(&actions[0], ReaderAction::ToWriter(WebSocketActorInputMessage::WriteFrame(f)) if f.opcode == OpCode::Close && f.payload.is_empty()));
    let actions = r.step(ReaderEvent::Selected(None, ReaderSelection::ReadFrame(Err("reset".to_string()))));
    assert!(matches!(actions[0], ReaderAction::ToWriter(WebSocketActorInputMessage::Disconnect)));
    assert!(matches!(&actions[1], ReaderAction::Report(ReadFrameProcessorActorInputMessage::ClientMessage(m)) if m.as_str() == "reset"));
    assert_eq!(r.phase, ReaderPhase::Connected);
    let actions = r.step(ReaderEvent::Selected(None, ReaderSelection::Connection(Some(ReaderInput::Disconnect))));
    assert!(matches!(actions[0], ReaderAction::DropReader));
    assert_eq!(r.phase, ReaderPhase::NotConnected);
    assert!(r.step(ReaderEvent::Input(None)).is_empty());
    assert_eq!(r.phase, ReaderPhase::Stopped);
}

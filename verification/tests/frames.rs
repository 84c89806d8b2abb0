use req_it_gui::actors::owned_frame::{copy_bytes, Frame, OpCode, OwnedFrame, Payload};
use req_it_gui::actors::read_frame_processor_actor::{process_message as render_message, render_frame};
use req_it_gui::actors::websockets::fastwebsockets::read_frame_processor_actor::{format_output, process_message};
use req_it_gui::actors::web_socket_actor_messages::{
    ProcessingFormat, ReadFrameProcessorActorInputMessage, ReadFrameProcessorActorOutputMessage,
    SendableText, WebSocketActorInputMessage, WebSocketActorOutputClientMessage,
    WriteFrameProcessorActorInputMessage,
};
use req_it_gui::actors::write_frame_processor_actor::{text_frame, web_socket_request};

fn owned(fin: bool, opcode: OpCode, payload: &[u8]) -> OwnedFrame {
    OwnedFrame { fin, opcode, payload: payload.to_vec() }
}

#[test]
fn new_frame_is_blank() {
    let f = OwnedFrame::new();
    assert!(!f.fin);
    assert_eq!(f.opcode, OpCode::Continuation);
    assert!(f.payload.is_empty());
    let g = OwnedFrame::with_capacity(64);
    assert!(!g.fin);
    assert_eq!(g.opcode, OpCode::Continuation);
    assert!(g.payload.is_empty());
}

#[test]
fn reset_makes_frame_blank() {
    let mut f = owned(true, OpCode::Binary, &[1, 2, 3]);
    f.reset();
    assert!(!f.fin);
    assert_eq!(f.opcode, OpCode::Continuation);
    assert!(f.payload.is_empty());
}

#[test]
fn from_frame_takes_wire_bytes_padded() {
    let mut frame = Frame { fin: true, opcode: OpCode::Text, mask: None, payload: Payload::Borrowed(b"hi".to_vec()) };
    let f = OwnedFrame::from_frame(&mut frame);
    assert!(f.fin);
    assert_eq!(f.opcode, OpCode::Text);
    let mut expected = vec![0x81u8, 0x02, b'h', b'i'];
    expected.resize(2 + 16, 0);
    assert_eq!(f.payload, expected);
    assert_eq!(frame.payload.as_slice(), b"hi");
}

#[test]
fn from_frame_masked_header() {
    let mut frame = Frame { fin: false, opcode: OpCode::Binary, mask: Some([1, 2, 3, 4]), payload: Payload::Owned(vec![9]) };
    let f = OwnedFrame::from_frame(&mut frame);
    assert_eq!(&f.payload[..7], &[0x02u8, 0x81, 1, 2, 3, 4, 9]);
    assert_eq!(f.payload.len(), 17);
    assert!(f.payload[7..].iter().all(|b| *b == 0));
}

#[test]
fn from_frame_medium_length_header() {
    let payload = vec![7u8; 300];
    let mut frame = Frame { fin: true, opcode: OpCode::Binary, mask: None, payload: Payload::Bytes(payload.clone()) };
    let f = OwnedFrame::from_frame(&mut frame);
    assert_eq!(&f.payload[..4], &[0x82u8, 126, 1, 44]);
    assert_eq!(&f.payload[4..304], payload.as_slice());
    assert_eq!(f.payload.len(), 316);
}

#[test]
fn copy_from_frame_keeps_longer_tail() {
    let mut f = owned(false, OpCode::Continuation, &[5u8; 40]);
    let mut frame = Frame { fin: true, opcode: OpCode::Ping, mask: None, payload: Payload::Owned(vec![]) };
    f.copy_from_frame(&mut frame);
    assert!(f.fin);
    assert_eq!(f.opcode, OpCode::Ping);
    assert_eq!(f.payload.len(), 40);
    assert_eq!(&f.payload[..2], &[0x89u8, 0x00]);
    assert!(f.payload[2..].iter().all(|b| *b == 5));
}

#[test]
fn copy_into_owned_frame_copies_payload() {
    let mut f = owned(true, OpCode::Text, b"abc");
    let mut frame = Frame { fin: false, opcode: OpCode::Binary, mask: None, payload: Payload::Owned(vec![1, 2, 3, 4, 5]) };
    f.copy_into_frame(&mut frame);
    assert!(frame.fin);
    assert_eq!(frame.opcode, OpCode::Text);
    match &frame.payload {
        Payload::Owned(v) => assert_eq!(v.as_slice(), b"abc"),
        _ => panic!("payload should be owned"),
    }
    assert_eq!(f.payload, b"abc".to_vec());
}

#[test]
fn copy_into_borrowed_frame_keeps_its_bytes() {
    let mut f = owned(true, OpCode::Text, b"abc");
    let mut frame = Frame { fin: false, opcode: OpCode::Binary, mask: None, payload: Payload::Borrowed(vec![9, 9]) };
    f.copy_into_frame(&mut frame);
    assert!(frame.fin);
    assert_eq!(frame.opcode, OpCode::Text);
    match &frame.payload {
        Payload::Owned(v) => assert_eq!(v.as_slice(), &[9u8, 9]),
        _ => panic!("payload should be owned"),
    }
}

#[test]
fn copy_bytes_copies() {
    assert_eq!(copy_bytes(&[1, 2, 3]), vec![1, 2, 3]);
    assert!(copy_bytes(&[]).is_empty());
}

#[test]
fn opcode_names() {
    assert_eq!(OpCode::Continuation.name(), "Continuation");
    assert_eq!(OpCode::Pong.name(), "Pong");
}

#[test]
fn format_output_empty_payload() {
    let out = format_output(owned(true, OpCode::Close, &[]));
    assert_eq!(out, "{\n\tfin: true,\n\topcode: Close\n}");
}

#[test]
fn format_output_text_payload() {
    let out = format_output(owned(false, OpCode::Text, b"hello"));
    assert_eq!(out, "{\n\tfin: false,\n\topcode: Text,\n\tpayload: \"hello\"\n}");
}

#[test]
fn format_output_invalid_utf8_is_replaced() {
    let out = format_output(owned(true, OpCode::Ping, &[0x66, 0xff]));
    assert_eq!(out, "{\n\tfin: true,\n\topcode: Ping,\n\tpayload: \"f\u{fffd}\"\n}");
}

#[test]
fn format_output_binary_payload() {
    let out = format_output(owned(true, OpCode::Binary, &[0, 10, 255]));
    assert_eq!(out, "{\n\tfin: true,\n\topcode: Binary,\n\tpayload: [0, 10, 255]\n}");
    let out = format_output(owned(false, OpCode::Continuation, &[7]));
    assert_eq!(out, "{\n\tfin: false,\n\topcode: Continuation,\n\tpayload: [7]\n}");
}

#[test]
fn render_frame_text_and_binary() {
    assert_eq!(render_frame(&owned(true, OpCode::Text, b"hey")), "{fin: true,\nopcode: Text,\npayload_as_utf8: hey}");
    assert_eq!(render_frame(&owned(false, OpCode::Binary, &[1, 2])), "{fin: false,\nopcode: Binary,\npayload [1, 2]}");
    assert_eq!(render_frame(&owned(false, OpCode::Pong, &[])), "{fin: false,\nopcode: Pong,\npayload []}");
}

#[test]
fn processor_passes_reports_and_formats_frames() {
    let out = process_message(ReadFrameProcessorActorInputMessage::ClientMessage(
        WebSocketActorOutputClientMessage::Disconnected(SendableText::Str("gone")),
    ));
    assert_eq!(out.len(), 1);
    match &out[0] {
        ReadFrameProcessorActorOutputMessage::ClientMessage(m) => assert_eq!(m.as_str(), "gone"),
        _ => panic!("expected a client message"),
    }
    let out = process_message(ReadFrameProcessorActorInputMessage::Frame(owned(true, OpCode::Text, b"x")));
    assert_eq!(out.len(), 1);
    match &out[0] {
        ReadFrameProcessorActorOutputMessage::Processed(t) => assert_eq!(t, "{\n\tfin: true,\n\topcode: Text,\n\tpayload: \"x\"\n}"),
        _ => panic!("expected processed text"),
    }
}

#[test]
fn processor_gives_report_before_frame() {
    let out = process_message(ReadFrameProcessorActorInputMessage::FrameAndMessage(
        owned(true, OpCode::Close, &[]),
        WebSocketActorOutputClientMessage::CloseFrameReceived(SendableText::String("closed".to_string())),
    ));
    assert_eq!(out.len(), 2);
    match (&out[0], &out[1]) {
        (ReadFrameProcessorActorOutputMessage::ClientMessage(m), ReadFrameProcessorActorOutputMessage::Processed(t)) => {
            assert_eq!(m.as_str(), "closed");
            assert_eq!(t, "{\n\tfin: true,\n\topcode: Close\n}");
        }
        _ => panic!("wrong order"),
    }
}

#[test]
fn text_frame_holds_utf8_bytes() {
    let f = text_frame("héllo");
    assert!(!f.fin);
    assert_eq!(f.opcode, OpCode::Text);
    assert_eq!(f.payload, "héllo".as_bytes().to_vec());
    assert!(text_frame("").payload.is_empty());
}

#[test]
fn single_pipeline_renders_frames_and_passes_reports() {
    let out = render_message(ReadFrameProcessorActorInputMessage::FrameAndMessage(
        owned(true, OpCode::Text, b"hi"),
        WebSocketActorOutputClientMessage::PingReceived(SendableText::Str("ping")),
    ));
    assert_eq!(out.len(), 2);
    match (&out[0], &out[1]) {
        (ReadFrameProcessorActorOutputMessage::ClientMessage(m), ReadFrameProcessorActorOutputMessage::Processed(t)) => {
            assert_eq!(m.as_str(), "ping");
            assert_eq!(t, "{fin: true,\nopcode: Text,\npayload_as_utf8: hi}");
        }
        _ => panic!("wrong order"),
    }
    let out = render_message(ReadFrameProcessorActorInputMessage::Frame(owned(false, OpCode::Binary, &[7])));
    assert_eq!(out.len(), 1);
    match &out[0] {
        ReadFrameProcessorActorOutputMessage::Processed(t) => assert_eq!(t, "{fin: false,\nopcode: Binary,\npayload [7]}"),
        _ => panic!("expected processed text"),
    }
    let out = render_message(ReadFrameProcessorActorInputMessage::ClientMessage(
        WebSocketActorOutputClientMessage::ConnectionSucceed(SendableText::Str("ok")),
    ));
    assert_eq!(out.len(), 1);
    match &out[0] {
        ReadFrameProcessorActorOutputMessage::ClientMessage(m) => assert_eq!(m.as_str(), "ok"),
        _ => panic!("expected a client message"),
    }
}

#[test]
fn write_processor_requests() {
    match web_socket_request(WriteFrameProcessorActorInputMessage::Process("abc".to_string(), ProcessingFormat::Text)) {
        WebSocketActorInputMessage::WriteFrame(f) => {
            assert!(!f.fin);
            assert_eq!(f.opcode, OpCode::Text);
            assert_eq!(f.payload, b"abc".to_vec());
        }
        _ => panic!("expected a frame to write"),
    }
    assert!(matches!(
        web_socket_request(WriteFrameProcessorActorInputMessage::SendPing(SendableText::Str("p"))),
        WebSocketActorInputMessage::SendPing
    ));
}

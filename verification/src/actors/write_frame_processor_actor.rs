use vstd::prelude::*;

use super::owned_frame::{copy_bytes, OpCode, OwnedFrame};
use super::web_socket_actor_messages::{
    InputView, OwnedFrameView, WebSocketActorInputMessage, WriteFrameProcessorActorInputMessage,
};

verus! {

/// The frame that carries text to be written: a text frame, not marked
/// final, whose payload is the UTF-8 encoding of the text.
pub fn text_frame(contents: &str) -> (frame: OwnedFrame)
    ensures
        !frame.fin,
        frame.opcode == OpCode::Text,
        frame.payload@ == vstd::utf8::encode_utf8(contents@),
{
    let mut frame = OwnedFrame::new();
    frame.opcode = OpCode::Text;
    frame.payload = copy_bytes(contents.as_bytes());
    frame
}

/// What the write-frame processor asks of the WebSocket actor for one of its
/// messages: text to be processed is written as a text frame (see
/// `text_frame`), and a ping request is passed on.
pub open spec fn requested_input(message: WriteFrameProcessorActorInputMessage) -> InputView {
    match message {
        WriteFrameProcessorActorInputMessage::Process(contents, _) => InputView::WriteFrame(
            OwnedFrameView {
                fin: false,
                opcode: OpCode::Text,
                payload: vstd::utf8::encode_utf8(contents@),
            },
        ),
        WriteFrameProcessorActorInputMessage::SendPing(_) => InputView::SendPing,
    }
}

pub fn web_socket_request(message: WriteFrameProcessorActorInputMessage) -> (request: WebSocketActorInputMessage)
    ensures
        request@ == requested_input(message),
{
    match message {
        WriteFrameProcessorActorInputMessage::Process(contents, _) => {
            WebSocketActorInputMessage::WriteFrame(text_frame(contents.as_str()))
        },
        WriteFrameProcessorActorInputMessage::SendPing(_) => WebSocketActorInputMessage::SendPing,
    }
}

} // verus!

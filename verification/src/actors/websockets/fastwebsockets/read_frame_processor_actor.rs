use vstd::prelude::*;

use crate::actors::owned_frame::{OpCode, OwnedFrame};
use crate::actors::render::{
    bool_text, byte_list_text, joined_bytes, push_bool, push_byte_list, utf8_lossy, utf8_lossy_text,
};
use crate::actors::web_socket_actor_messages::{
    OwnedFrameView, ReadFrameInputView, ReadFrameOutputView, ReadFrameProcessorActorInputMessage,
    ReadFrameProcessorActorOutputMessage,
};

verus! {

/// Whether a frame's payload is shown as text (rather than as a byte list).
pub open spec fn payload_shown_as_text(opcode: OpCode) -> bool {
    opcode == OpCode::Text || opcode == OpCode::Close || opcode == OpCode::Ping || opcode
        == OpCode::Pong
}

/// How a read frame is shown to the user:
///
/// ```text
/// {
/// 	fin: true,
/// 	opcode: Text,
/// 	payload: "hello"
/// }
/// ```
///
/// Text, close, ping and pong payloads are decoded as UTF-8 (lossily) and
/// quoted; binary and continuation payloads are listed as bytes; an empty
/// payload leaves the payload line out.
pub open spec fn formatted_frame(frame: OwnedFrameView) -> Seq<char> {
    let head = "{\n\tfin: "@ + bool_text(frame.fin) + ",\n\topcode: "@ + frame.opcode.spec_name();
    if frame.payload.len() == 0 {
        head + "\n}"@
    } else if payload_shown_as_text(frame.opcode) {
        head + ",\n\tpayload: \""@ + utf8_lossy_text(frame.payload) + "\"\n}"@
    } else {
        head + ",\n\tpayload: "@ + byte_list_text(frame.payload) + "\n}"@
    }
}

pub fn format_output(frame: OwnedFrame) -> (output: String)
    ensures
        output@ == formatted_frame(frame@),
{
    let mut output = String::new();
    output.append("{\n\tfin: ");
    push_bool(&mut output, frame.fin);
    output.append(",\n\topcode: ");
    output.append(frame.opcode.name());
    if frame.payload.len() == 0 {
        output.append("\n}");
    } else {
        match frame.opcode {
            OpCode::Text | OpCode::Close | OpCode::Ping | OpCode::Pong => {
                let text = utf8_lossy(frame.payload.as_slice());
                output.append(",\n\tpayload: \"");
                output.append(text.as_str());
                output.append("\"\n}");
            },
            OpCode::Binary | OpCode::Continuation => {
                output.append(",\n\tpayload: ");
                push_byte_list(&mut output, frame.payload.as_slice());
                output.append("\n}");
            },
        }
    }
    output
}

/// What the read-frame processor hands on for one message it receives:
/// a report passes through unchanged, a frame is formatted, and a frame with
/// a report gives the report first and then the formatted frame.
pub open spec fn processed_outputs(input: ReadFrameInputView) -> Seq<ReadFrameOutputView> {
    match input {
        ReadFrameInputView::ClientMessage(m) => seq![ReadFrameOutputView::ClientMessage(m)],
        ReadFrameInputView::Frame(f) => seq![ReadFrameOutputView::Processed(formatted_frame(f))],
        ReadFrameInputView::FrameAndMessage(f, m) => seq![
            ReadFrameOutputView::ClientMessage(m),
            ReadFrameOutputView::Processed(formatted_frame(f)),
        ],
    }
}

/// The outputs, in the order they are sent, for one input of the read-frame
/// processor. The actor stops at the first output it cannot send.
pub fn process_message(message: ReadFrameProcessorActorInputMessage) -> (outputs: Vec<
    ReadFrameProcessorActorOutputMessage,
>)
    ensures
        outputs@.map_values(|o: ReadFrameProcessorActorOutputMessage| o@) == processed_outputs(
            message@,
        ),
{
    let ghost input = message@;
    let mut outputs: Vec<ReadFrameProcessorActorOutputMessage> = Vec::new();
    match message {
        ReadFrameProcessorActorInputMessage::Frame(frame) => {
            outputs.push(ReadFrameProcessorActorOutputMessage::Processed(format_output(frame)));
        },
        ReadFrameProcessorActorInputMessage::ClientMessage(message) => {
            outputs.push(ReadFrameProcessorActorOutputMessage::ClientMessage(message));
        },
        ReadFrameProcessorActorInputMessage::FrameAndMessage(frame, message) => {
            outputs.push(ReadFrameProcessorActorOutputMessage::ClientMessage(message));
            outputs.push(ReadFrameProcessorActorOutputMessage::Processed(format_output(frame)));
        },
    }
    assert(outputs@.map_values(|o: ReadFrameProcessorActorOutputMessage| o@) =~= processed_outputs(
        input,
    ));
    outputs
}


/// How each frame is shown: a brace, then the fin flag as `true` or `false`,
/// then the opcode's name, then (unless the payload is empty) the payload, and
/// a closing brace on a line of its own. Text, close, ping and pong payloads
/// are shown quoted as (lossily decoded) text; binary and continuation payloads
/// as a list of bytes in decimal.
pub proof fn lemma_frame_display(frame: OwnedFrameView)
    ensures
        ({
            let head = "{\n\tfin: "@ + (if frame.fin {
                "true"@
            } else {
                "false"@
            }) + ",\n\topcode: "@ + frame.opcode.spec_name();
            &&& frame.payload.len() == 0 ==> formatted_frame(frame) == head + "\n}"@
            &&& (frame.payload.len() > 0 && (frame.opcode == OpCode::Binary || frame.opcode
                == OpCode::Continuation)) ==> formatted_frame(frame) == head + ",\n\tpayload: "@
                + "["@ + joined_bytes(frame.payload) + "]"@ + "\n}"@
            &&& (frame.payload.len() > 0 && !(frame.opcode == OpCode::Binary || frame.opcode
                == OpCode::Continuation)) ==> formatted_frame(frame) == head
                + ",\n\tpayload: \""@ + utf8_lossy_text(frame.payload) + "\"\n}"@
        }),
{
}

/// The read-frame processor hands on exactly one output per report and per
/// frame, and two for a frame with a report, the report first.
pub proof fn lemma_processed_output_counts(input: ReadFrameInputView)
    ensures
        input is ClientMessage ==> processed_outputs(input).len() == 1
            && processed_outputs(input)[0] == ReadFrameOutputView::ClientMessage(input->ClientMessage_0),
        input is Frame ==> processed_outputs(input).len() == 1 && processed_outputs(input)[0] is Processed,
        input is FrameAndMessage ==> processed_outputs(input).len() == 2
            && processed_outputs(input)[0] == ReadFrameOutputView::ClientMessage(input->FrameAndMessage_1)
            && processed_outputs(input)[1] == ReadFrameOutputView::Processed(
            formatted_frame(input->FrameAndMessage_0),
        ),
{
}

} // verus!

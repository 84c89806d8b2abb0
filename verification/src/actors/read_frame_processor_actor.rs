use vstd::prelude::*;

use super::owned_frame::{OpCode, OwnedFrame};
use super::render::{bool_text, byte_list_text, push_bool, push_byte_list, utf8_lossy, utf8_lossy_text};
use super::web_socket_actor_messages::{
    OwnedFrameView, ReadFrameInputView, ReadFrameOutputView, ReadFrameProcessorActorInputMessage,
    ReadFrameProcessorActorOutputMessage,
};

verus! {

/// How the single-connection pipeline shows a read frame: a text frame with
/// its payload decoded as UTF-8 (lossily),
///
/// ```text
/// {fin: true,
/// opcode: Text,
/// payload_as_utf8: hello}
/// ```
///
/// and any other frame with its payload listed as bytes (`payload [1, 2]`).
pub open spec fn rendered_frame(frame: OwnedFrameView) -> Seq<char> {
    let head = "{fin: "@ + bool_text(frame.fin) + ",\nopcode: "@ + frame.opcode.spec_name();
    if frame.opcode == OpCode::Text {
        head + ",\npayload_as_utf8: "@ + utf8_lossy_text(frame.payload) + "}"@
    } else {
        head + ",\npayload "@ + byte_list_text(frame.payload) + "}"@
    }
}

pub fn render_frame(frame: &OwnedFrame) -> (output: String)
    ensures
        output@ == rendered_frame(frame@),
{
    let mut output = String::new();
    output.append("{fin: ");
    push_bool(&mut output, frame.fin);
    output.append(",\nopcode: ");
    output.append(frame.opcode.name());
    if frame.opcode == OpCode::Text {
        let text = utf8_lossy(frame.payload.as_slice());
        output.append(",\npayload_as_utf8: ");
        output.append(text.as_str());
        output.append("}");
    } else {
        output.append(",\npayload ");
        push_byte_list(&mut output, frame.payload.as_slice());
        output.append("}");
    }
    output
}

/// What the single-connection read-frame processor hands on for one message:
/// a report passes through unchanged, a frame is rendered, and a frame with a
/// report gives the report first and then the rendered frame.
pub open spec fn rendered_outputs(input: ReadFrameInputView) -> Seq<ReadFrameOutputView> {
    match input {
        ReadFrameInputView::ClientMessage(m) => seq![ReadFrameOutputView::ClientMessage(m)],
        ReadFrameInputView::Frame(f) => seq![ReadFrameOutputView::Processed(rendered_frame(f))],
        ReadFrameInputView::FrameAndMessage(f, m) => seq![
            ReadFrameOutputView::ClientMessage(m),
            ReadFrameOutputView::Processed(rendered_frame(f)),
        ],
    }
}

/// The outputs, in the order they are sent, for one input of the processor.
pub fn process_message(message: ReadFrameProcessorActorInputMessage) -> (outputs: Vec<
    ReadFrameProcessorActorOutputMessage,
>)
    ensures
        outputs@.map_values(|o: ReadFrameProcessorActorOutputMessage| o@) == rendered_outputs(
            message@,
        ),
{
    let ghost input = message@;
    let mut outputs: Vec<ReadFrameProcessorActorOutputMessage> = Vec::new();
    match message {
        ReadFrameProcessorActorInputMessage::Frame(frame) => {
            outputs.push(ReadFrameProcessorActorOutputMessage::Processed(render_frame(&frame)));
        },
        ReadFrameProcessorActorInputMessage::ClientMessage(message) => {
            outputs.push(ReadFrameProcessorActorOutputMessage::ClientMessage(message));
        },
        ReadFrameProcessorActorInputMessage::FrameAndMessage(frame, message) => {
            outputs.push(ReadFrameProcessorActorOutputMessage::ClientMessage(message));
            outputs.push(ReadFrameProcessorActorOutputMessage::Processed(render_frame(&frame)));
        },
    }
    assert(outputs@.map_values(|o: ReadFrameProcessorActorOutputMessage| o@) =~= rendered_outputs(
        input,
    ));
    outputs
}

} // verus!

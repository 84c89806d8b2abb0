use vstd::prelude::*;

use super::owned_frame::{OpCode, OwnedFrame};

verus! {

/// Text that is either a string literal or an owned string.
#[derive(Debug)]
pub enum SendableText {
    String(String),
    Str(&'static str),
}

impl View for SendableText {
    type V = Seq<char>;

    open spec fn view(&self) -> Seq<char> {
        match self {
            SendableText::String(s) => s@,
            SendableText::Str(s) => s@,
        }
    }
}

impl SendableText {
    pub fn as_str(&self) -> (text: &str)
        ensures
            text@ == self@,
    {
        match self {
            SendableText::String(s) => s.as_str(),
            SendableText::Str(s) => *s,
        }
    }
}

pub enum WebSocketActorFormat {
    JsonToCbor,
    Text,
}

/// What the user interface asks of the WebSocket actor.
#[derive(Debug)]
pub enum WebSocketActorInputMessage {
    /// Connect to the server at this address, closing any current connection first.
    ConnectTo(String),
    Disconnect,
    WriteFrame(OwnedFrame),
    SendPing,
}

/// The kinds of report the WebSocket actor gives the user interface.
#[derive(Debug, Clone, Copy, PartialEq, Eq, Structural)]
pub enum ClientMessageKind {
    ConnectionSucceed,
    ConnectionFailed,
    ConnectionError,
    Disconnected,
    Disconnecting,
    NotConnected,
    NotDisconnected,
    PingReceived,
    PongReceived,
    PingFrameReceived,
    PongFrameReceived,
    CloseFrameReceived,
}

/// A report of the WebSocket actor, as a kind and a text.
pub struct ClientMessageView {
    pub kind: ClientMessageKind,
    pub text: Seq<char>,
}

/// Reports of the WebSocket actor itself, as opposed to what the server sent.
#[derive(Debug)]
pub enum WebSocketActorOutputClientMessage {
    ConnectionSucceed(SendableText),
    ConnectionFailed(SendableText),
    ConnectionError(SendableText),
    Disconnected(SendableText),
    Disconnecting(SendableText),
    NotConnected(SendableText),
    NotDisconnected(SendableText),
    PingReceived(SendableText),
    PongReceived(SendableText),
    PingFrameReceived(SendableText),
    PongFrameReceived(SendableText),
    CloseFrameReceived(SendableText),
}

impl View for WebSocketActorOutputClientMessage {
    type V = ClientMessageView;

    open spec fn view(&self) -> ClientMessageView {
        match self {
            WebSocketActorOutputClientMessage::ConnectionSucceed(t) => ClientMessageView {
                kind: ClientMessageKind::ConnectionSucceed,
                text: t@,
            },
            WebSocketActorOutputClientMessage::ConnectionFailed(t) => ClientMessageView {
                kind: ClientMessageKind::ConnectionFailed,
                text: t@,
            },
            WebSocketActorOutputClientMessage::ConnectionError(t) => ClientMessageView {
                kind: ClientMessageKind::ConnectionError,
                text: t@,
            },
            WebSocketActorOutputClientMessage::Disconnected(t) => ClientMessageView {
                kind: ClientMessageKind::Disconnected,
                text: t@,
            },
            WebSocketActorOutputClientMessage::Disconnecting(t) => ClientMessageView {
                kind: ClientMessageKind::Disconnecting,
                text: t@,
            },
            WebSocketActorOutputClientMessage::NotConnected(t) => ClientMessageView {
                kind: ClientMessageKind::NotConnected,
                text: t@,
            },
            WebSocketActorOutputClientMessage::NotDisconnected(t) => ClientMessageView {
                kind: ClientMessageKind::NotDisconnected,
                text: t@,
            },
            WebSocketActorOutputClientMessage::PingReceived(t) => ClientMessageView {
                kind: ClientMessageKind::PingReceived,
                text: t@,
            },
            WebSocketActorOutputClientMessage::PongReceived(t) => ClientMessageView {
                kind: ClientMessageKind::PongReceived,
                text: t@,
            },
            WebSocketActorOutputClientMessage::PingFrameReceived(t) => ClientMessageView {
                kind: ClientMessageKind::PingFrameReceived,
                text: t@,
            },
            WebSocketActorOutputClientMessage::PongFrameReceived(t) => ClientMessageView {
                kind: ClientMessageKind::PongFrameReceived,
                text: t@,
            },
            WebSocketActorOutputClientMessage::CloseFrameReceived(t) => ClientMessageView {
                kind: ClientMessageKind::CloseFrameReceived,
                text: t@,
            },
        }
    }
}

impl WebSocketActorOutputClientMessage {
    /// The report's text.
    pub fn as_str(&self) -> (text: &str)
        ensures
            text@ == self@.text,
    {
        match self {
            WebSocketActorOutputClientMessage::ConnectionSucceed(message)
            | WebSocketActorOutputClientMessage::ConnectionFailed(message)
            | WebSocketActorOutputClientMessage::ConnectionError(message)
            | WebSocketActorOutputClientMessage::Disconnected(message)
            | WebSocketActorOutputClientMessage::Disconnecting(message)
            | WebSocketActorOutputClientMessage::NotConnected(message)
            | WebSocketActorOutputClientMessage::NotDisconnected(message)
            | WebSocketActorOutputClientMessage::PingReceived(message)
            | WebSocketActorOutputClientMessage::PongReceived(message)
            | WebSocketActorOutputClientMessage::PingFrameReceived(message)
            | WebSocketActorOutputClientMessage::PongFrameReceived(message)
            | WebSocketActorOutputClientMessage::CloseFrameReceived(message) => message.as_str(),
        }
    }

    /// The report of the given kind with the given text.
    pub fn from_parts(kind: ClientMessageKind, text: SendableText) -> (message: Self)
        ensures
            message@ == (ClientMessageView { kind, text: text@ }),
    {
        match kind {
            ClientMessageKind::ConnectionSucceed => WebSocketActorOutputClientMessage::ConnectionSucceed(text),
            ClientMessageKind::ConnectionFailed => WebSocketActorOutputClientMessage::ConnectionFailed(text),
            ClientMessageKind::ConnectionError => WebSocketActorOutputClientMessage::ConnectionError(text),
            ClientMessageKind::Disconnected => WebSocketActorOutputClientMessage::Disconnected(text),
            ClientMessageKind::Disconnecting => WebSocketActorOutputClientMessage::Disconnecting(text),
            ClientMessageKind::NotConnected => WebSocketActorOutputClientMessage::NotConnected(text),
            ClientMessageKind::NotDisconnected => WebSocketActorOutputClientMessage::NotDisconnected(text),
            ClientMessageKind::PingReceived => WebSocketActorOutputClientMessage::PingReceived(text),
            ClientMessageKind::PongReceived => WebSocketActorOutputClientMessage::PongReceived(text),
            ClientMessageKind::PingFrameReceived => WebSocketActorOutputClientMessage::PingFrameReceived(text),
            ClientMessageKind::PongFrameReceived => WebSocketActorOutputClientMessage::PongFrameReceived(text),
            ClientMessageKind::CloseFrameReceived => WebSocketActorOutputClientMessage::CloseFrameReceived(text),
        }
    }
}

/// Messages about what the remote server sent.
#[derive(Debug)]
pub enum WebSocketActorOutputServerMessage {
    Read(OwnedFrame),
    Error(String),
}

#[derive(Debug)]
pub enum WebSocketActorOutputMessage {
    ClientMessage(WebSocketActorOutputClientMessage),
    ServerMessage(WebSocketActorOutputServerMessage),
}

#[derive(Debug, Default, Clone, Copy)]
pub enum ProcessingFormat {
    #[default]
    Text,
}

#[derive(Debug)]
pub enum WriteFrameProcessorActorInputMessage {
    Process(String, ProcessingFormat),
    SendPing(SendableText),
}

/// An owned frame as plain values.
pub struct OwnedFrameView {
    pub fin: bool,
    pub opcode: OpCode,
    pub payload: Seq<u8>,
}

impl View for OwnedFrame {
    type V = OwnedFrameView;

    open spec fn view(&self) -> OwnedFrameView {
        OwnedFrameView { fin: self.fin, opcode: self.opcode, payload: self.payload@ }
    }
}

/// A message to the WebSocket actor, as plain values.
pub enum InputView {
    ConnectTo(Seq<char>),
    Disconnect,
    WriteFrame(OwnedFrameView),
    SendPing,
}

impl View for WebSocketActorInputMessage {
    type V = InputView;

    open spec fn view(&self) -> InputView {
        match self {
            WebSocketActorInputMessage::ConnectTo(url) => InputView::ConnectTo(url@),
            WebSocketActorInputMessage::Disconnect => InputView::Disconnect,
            WebSocketActorInputMessage::WriteFrame(frame) => InputView::WriteFrame(frame@),
            WebSocketActorInputMessage::SendPing => InputView::SendPing,
        }
    }
}

pub open spec fn option_input_view(m: Option<WebSocketActorInputMessage>) -> Option<InputView> {
    match m {
        Some(m) => Some(m@),
        None => None,
    }
}

pub open spec fn outcome_view(r: Result<(), String>) -> Result<(), Seq<char>> {
    match r {
        Ok(()) => Ok(()),
        Err(e) => Err(e@),
    }
}

/// What enters the read-frame pipeline: reports and frames read from the server.
#[derive(Debug)]
pub enum ReadFrameProcessorActorInputMessage {
    ClientMessage(WebSocketActorOutputClientMessage),
    Frame(OwnedFrame),
    FrameAndMessage(OwnedFrame, WebSocketActorOutputClientMessage),
}

pub enum ReadFrameInputView {
    ClientMessage(ClientMessageView),
    Frame(OwnedFrameView),
    FrameAndMessage(OwnedFrameView, ClientMessageView),
}

impl View for ReadFrameProcessorActorInputMessage {
    type V = ReadFrameInputView;

    open spec fn view(&self) -> ReadFrameInputView {
        match self {
            ReadFrameProcessorActorInputMessage::ClientMessage(m) => ReadFrameInputView::ClientMessage(m@),
            ReadFrameProcessorActorInputMessage::Frame(f) => ReadFrameInputView::Frame(f@),
            ReadFrameProcessorActorInputMessage::FrameAndMessage(f, m) => ReadFrameInputView::FrameAndMessage(f@, m@),
        }
    }
}

/// What leaves the read-frame pipeline for the user interface.
#[derive(Debug)]
pub enum ReadFrameProcessorActorOutputMessage {
    ClientMessage(WebSocketActorOutputClientMessage),
    Processed(String),
}

pub enum ReadFrameOutputView {
    ClientMessage(ClientMessageView),
    Processed(Seq<char>),
}

impl View for ReadFrameProcessorActorOutputMessage {
    type V = ReadFrameOutputView;

    open spec fn view(&self) -> ReadFrameOutputView {
        match self {
            ReadFrameProcessorActorOutputMessage::ClientMessage(m) => ReadFrameOutputView::ClientMessage(m@),
            ReadFrameProcessorActorOutputMessage::Processed(s) => ReadFrameOutputView::Processed(s@),
        }
    }
}

} // verus!

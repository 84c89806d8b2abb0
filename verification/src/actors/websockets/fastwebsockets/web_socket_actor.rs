//! The decisions of the WebSocket actor pair: the writing actor, which owns the
//! write half of the connection and takes the user interface's requests, and
//! the reading actor, which owns the read half and feeds the read-frame
//! pipeline.
//!
//! Each actor is a state machine here. Its runner (in the application) waits
//! for what the current phase waits for, turns it into an event, lets the
//! machine step, and performs the actions that come back in order. Every send
//! that fails stops the actor: each action says which exit reason such a
//! failure stands for, and none of those reasons lets the actor continue.
use vstd::prelude::*;

use crate::actors::owned_frame::{OpCode, OwnedFrame};
use crate::actors::render::{decimal, push_decimal};
use crate::actors::web_socket_actor_messages::{
    option_input_view, outcome_view, ClientMessageKind, ClientMessageView, InputView,
    OwnedFrameView, ReadFrameInputView, ReadFrameProcessorActorInputMessage, SendableText,
    WebSocketActorInputMessage, WebSocketActorOutputClientMessage,
};

verus! {

pub const CONNECTION_SUCCEEDED: &'static str = "Connection succeeded!";

pub const ERROR_EMPTY_URL_PROVIDED: &'static str = "Error: Empty URL provided.";

pub const SERVER_DISCONNECTED: &'static str = "Server disconnected";

pub const ERROR_NO_SERVER_CONNECTED: &'static str = "Error: No server connected.";

pub const CLOSE_FRAME_SENT: &'static str = "Close frame Sent.";

pub const TIME_ELAPSED_FORCED_CLOSURE_NOTICE: &'static str =
    "Close Connection Response Time Has Elapsed: Forcing closure of connection.";

pub const SERVER_DISCONNECTION_FORCED: &'static str = "Forced server disconnection";

pub const PING_FRAME_RECEIVED: &'static str = "Ping frame received - pong frame already sent";

pub const PING_FRAME_SENT: &'static str = "Ping frame sent.";

pub const PONG_FRAME_RECEIVED: &'static str = "Pong frame received.";

pub const CLOSE_FRAME_RECEIVED: &'static str = "Close frame received - Close frame already sent.";

pub const HOST_NOT_FOUND: &'static str = "Host section not found in the provided URL.";

/// How long the actor waits for the server's reply to its close frame, in seconds.
pub const CLOSE_REPLY_WAIT_SECONDS: u64 = 10;

/// Why a connected loop of the actor ended.
#[derive(Debug, Clone, Copy, PartialEq, Eq, Structural)]
pub enum ConnectedLoopExitReason {
    ReadFrameProcessorActorDropped,
    ReadWebSocketActorDropped,
    ServerDisconnectedOrConnectionError,
    InvalidInput,
}

impl ConnectedLoopExitReason {
    /// An actor that another actor of its pipeline has left cannot go on; a
    /// failed connection or a bad request leaves it ready for the next request.
    pub open spec fn spec_should_continue(self) -> bool {
        match self {
            ConnectedLoopExitReason::ReadFrameProcessorActorDropped
            | ConnectedLoopExitReason::ReadWebSocketActorDropped => false,
            ConnectedLoopExitReason::ServerDisconnectedOrConnectionError
            | ConnectedLoopExitReason::InvalidInput => true,
        }
    }

    pub fn should_continue(&self) -> (go_on: bool)
        ensures
            go_on == self.spec_should_continue(),
    {
        match self {
            ConnectedLoopExitReason::ReadFrameProcessorActorDropped
            | ConnectedLoopExitReason::ReadWebSocketActorDropped => false,
            ConnectedLoopExitReason::ServerDisconnectedOrConnectionError
            | ConnectedLoopExitReason::InvalidInput => true,
        }
    }
}

/// Whether the actor goes on after an operation that ended with this (no
/// reason: it went well).
pub open spec fn spec_continue_or_not(opt_cler: Option<ConnectedLoopExitReason>) -> bool {
    match opt_cler {
        Some(reason) => reason.spec_should_continue(),
        None => true,
    }
}

pub fn continue_or_not(opt_cler: &Option<ConnectedLoopExitReason>) -> (go_on: bool)
    ensures
        go_on == spec_continue_or_not(*opt_cler),
{
    match opt_cler {
        Some(reason) => reason.should_continue(),
        None => true,
    }
}

/// The parts of a parsed URL that the actor uses.
pub struct ParsedUrl {
    pub serialization: String,
    pub host: Option<String>,
    pub port: Option<u16>,
}

pub struct ParsedUrlView {
    pub serialization: Seq<char>,
    pub host: Option<Seq<char>>,
    pub port: Option<u16>,
}

impl View for ParsedUrl {
    type V = ParsedUrlView;

    open spec fn view(&self) -> ParsedUrlView {
        ParsedUrlView {
            serialization: self.serialization@,
            host: match self.host {
                Some(h) => Some(h@),
                None => None,
            },
            port: self.port,
        }
    }
}

/// What `url::Url::parse` makes of a text: the URL's serialization, host and
/// explicit port, or the text of the parse error.
pub uninterp spec fn url_parse_outcome(input: Seq<char>) -> Result<ParsedUrlView, Seq<char>>;

/// Parses a URL.
///
/// Calls `url::Url::parse` and keeps `Url::as_str`, `Url::host_str` and
/// `Url::port` of the result, or the error's text. The outcome is named by
/// `url_parse_outcome`; nothing more is claimed of it.
#[verifier::external_body]
fn parse_url(input: &str) -> (parsed: Result<ParsedUrl, String>)
    ensures
        match parsed {
            Ok(url) => url_parse_outcome(input@) == Ok::<ParsedUrlView, Seq<char>>(url@),
            Err(text) => url_parse_outcome(input@) == Err::<ParsedUrlView, Seq<char>>(text@),
        },
{
    match url::Url::parse(input) {
        Ok(url) => Ok(ParsedUrl {
            serialization: url.as_str().to_string(),
            host: match url.host_str() {
                Some(host) => Some(host.to_string()),
                None => None,
            },
            port: url.port(),
        }),
        Err(err) => Err(err.to_string()),
    }
}

/// The `host:port` address to open a connection to: port 80 when the URL names
/// none, and an error when it has no host.
pub open spec fn host_and_port_of(url: ParsedUrlView) -> Result<Seq<char>, Seq<char>> {
    match url.host {
        None => Err(HOST_NOT_FOUND@),
        Some(host) => Ok(
            match url.port {
                Some(port) => host + ":"@ + decimal(port as nat),
                None => host + ":80"@,
            },
        ),
    }
}

pub fn host_and_port(url: &ParsedUrl) -> (address: Result<String, String>)
    ensures
        match address {
            Ok(a) => host_and_port_of(url@) == Ok::<Seq<char>, Seq<char>>(a@),
            Err(e) => host_and_port_of(url@) == Err::<Seq<char>, Seq<char>>(e@),
        },
{
    match &url.host {
        None => Err(String::from_str(HOST_NOT_FOUND)),
        Some(host) => {
            let mut address = host.clone();
            match url.port {
                Some(port) => {
                    address.append(":");
                    push_decimal(&mut address, port as u128);
                },
                None => {
                    address.append(":80");
                },
            }
            Ok(address)
        },
    }
}

/// What the writing actor does once a disconnection is over.
pub enum AfterDisconnect {
    /// Go back to waiting for the user interface.
    Finish,
    /// Connect to this address.
    ConnectTo(String),
}

pub enum AfterDisconnectView {
    Finish,
    ConnectTo(Seq<char>),
}

impl View for AfterDisconnect {
    type V = AfterDisconnectView;

    open spec fn view(&self) -> AfterDisconnectView {
        match self {
            AfterDisconnect::Finish => AfterDisconnectView::Finish,
            AfterDisconnect::ConnectTo(url) => AfterDisconnectView::ConnectTo(url@),
        }
    }
}

/// What the writing actor is waiting for.
pub enum WriterPhase {
    /// Not connected: waits for the user interface.
    NotConnected,
    /// Waits for the outcome of opening a connection to this URL.
    Connecting(ParsedUrl),
    /// Connected: waits for the reading actor first and the user interface second.
    Connected,
    /// Waits for the outcome of writing a frame; for a close frame, whether
    /// it came from the server side (the reading actor).
    Writing(Option<bool>),
    /// Waits for the outcome of sending the close frame.
    SendingClose(bool, AfterDisconnect),
    /// Waits, for at most `CLOSE_REPLY_WAIT_SECONDS`, for the server's reply to the close frame.
    AwaitingCloseReply(AfterDisconnect),
    /// The actor has ended.
    Stopped,
}

pub enum WriterPhaseView {
    NotConnected,
    Connecting(ParsedUrlView),
    Connected,
    Writing(Option<bool>),
    SendingClose(bool, AfterDisconnectView),
    AwaitingCloseReply(AfterDisconnectView),
    Stopped,
}

impl View for WriterPhase {
    type V = WriterPhaseView;

    open spec fn view(&self) -> WriterPhaseView {
        match self {
            WriterPhase::NotConnected => WriterPhaseView::NotConnected,
            WriterPhase::Connecting(url) => WriterPhaseView::Connecting(url@),
            WriterPhase::Connected => WriterPhaseView::Connected,
            WriterPhase::Writing(close) => WriterPhaseView::Writing(*close),
            WriterPhase::SendingClose(received, then) => WriterPhaseView::SendingClose(
                *received,
                then@,
            ),
            WriterPhase::AwaitingCloseReply(then) => WriterPhaseView::AwaitingCloseReply(then@),
            WriterPhase::Stopped => WriterPhaseView::Stopped,
        }
    }
}

/// The writing actor's state: what it waits for and the URL it is connected to.
pub struct WebSocketActorMachine {
    pub phase: WriterPhase,
    pub url: Option<ParsedUrl>,
}

pub struct WriterMachineView {
    pub phase: WriterPhaseView,
    pub url: Option<ParsedUrlView>,
}

impl View for WebSocketActorMachine {
    type V = WriterMachineView;

    open spec fn view(&self) -> WriterMachineView {
        WriterMachineView {
            phase: self.phase@,
            url: match self.url {
                Some(u) => Some(u@),
                None => None,
            },
        }
    }
}

/// What the writing actor's runner hands it.
pub enum WriterEvent {
    /// A message from the user interface, or `None` when its channel closed.
    Input(Option<WebSocketActorInputMessage>),
    /// A message from the reading actor, or `None` when its channel closed.
    FromReader(Option<WebSocketActorInputMessage>),
    /// The outcome of opening a connection (the error's text on failure).
    ConnectOutcome(Result<(), String>),
    /// The outcome of writing a frame.
    WriteOutcome(Result<(), String>),
    /// The outcome of writing the close frame.
    CloseFrameOutcome(Result<(), String>),
    /// No reply to the close frame came in time.
    CloseReplyTimedOut,
}

pub enum WriterEventView {
    Input(Option<InputView>),
    FromReader(Option<InputView>),
    ConnectOutcome(Result<(), Seq<char>>),
    WriteOutcome(Result<(), Seq<char>>),
    CloseFrameOutcome(Result<(), Seq<char>>),
    CloseReplyTimedOut,
}

impl View for WriterEvent {
    type V = WriterEventView;

    open spec fn view(&self) -> WriterEventView {
        match self {
            WriterEvent::Input(m) => WriterEventView::Input(option_input_view(*m)),
            WriterEvent::FromReader(m) => WriterEventView::FromReader(option_input_view(*m)),
            WriterEvent::ConnectOutcome(r) => WriterEventView::ConnectOutcome(outcome_view(*r)),
            WriterEvent::WriteOutcome(r) => WriterEventView::WriteOutcome(outcome_view(*r)),
            WriterEvent::CloseFrameOutcome(r) => WriterEventView::CloseFrameOutcome(
                outcome_view(*r),
            ),
            WriterEvent::CloseReplyTimedOut => WriterEventView::CloseReplyTimedOut,
        }
    }
}

/// What the writing actor's runner is to do.
pub enum WriterAction {
    /// Send this (counted) message into the read-frame pipeline.
    Report(ReadFrameProcessorActorInputMessage),
    /// Open a TCP connection to `host_and_port` and make the WebSocket
    /// handshake for `uri`; the outcome comes back as `ConnectOutcome`.
    OpenConnection(String, String),
    /// Split the new connection, keep its write half and send its read half
    /// to the reading actor.
    HandOverReader,
    /// Write this frame to the server; the outcome comes back as `WriteOutcome`.
    WriteFrame(OwnedFrame),
    /// Write a close frame with an empty payload; the outcome comes back as
    /// `CloseFrameOutcome`.
    SendCloseFrame,
    /// Start the wait of `CLOSE_REPLY_WAIT_SECONDS` for the server's reply to the close frame.
    StartCloseReplyTimer,
    /// Tell the reading actor to drop its half of the connection.
    TellReaderToDisconnect,
    /// Drop the write half of the connection. The connection library gives a
    /// write half no way to shut down; the connection closes once the reading
    /// actor has dropped its half too.
    DropWriter,
}

pub enum WriterActionView {
    Report(ReadFrameInputView),
    OpenConnection(Seq<char>, Seq<char>),
    HandOverReader,
    WriteFrame(OwnedFrameView),
    SendCloseFrame,
    StartCloseReplyTimer,
    TellReaderToDisconnect,
    DropWriter,
}

impl View for WriterAction {
    type V = WriterActionView;

    open spec fn view(&self) -> WriterActionView {
        match self {
            WriterAction::Report(m) => WriterActionView::Report(m@),
            WriterAction::OpenConnection(a, u) => WriterActionView::OpenConnection(a@, u@),
            WriterAction::HandOverReader => WriterActionView::HandOverReader,
            WriterAction::WriteFrame(f) => WriterActionView::WriteFrame(f@),
            WriterAction::SendCloseFrame => WriterActionView::SendCloseFrame,
            WriterAction::StartCloseReplyTimer => WriterActionView::StartCloseReplyTimer,
            WriterAction::TellReaderToDisconnect => WriterActionView::TellReaderToDisconnect,
            WriterAction::DropWriter => WriterActionView::DropWriter,
        }
    }
}

/// The exit reason that a failure of the action stands for (the actions that
/// send to another actor), if it can fail that way.
pub open spec fn writer_action_failure(action: WriterActionView) -> Option<ConnectedLoopExitReason> {
    match action {
        WriterActionView::Report(_) => Some(ConnectedLoopExitReason::ReadFrameProcessorActorDropped),
        WriterActionView::HandOverReader => Some(ConnectedLoopExitReason::ReadWebSocketActorDropped),
        WriterActionView::TellReaderToDisconnect => Some(
            ConnectedLoopExitReason::ReadFrameProcessorActorDropped,
        ),
        _ => None,
    }
}

impl WriterAction {
    pub fn failure_reason(&self) -> (reason: Option<ConnectedLoopExitReason>)
        ensures
            reason == writer_action_failure(self@),
    {
        match self {
            WriterAction::Report(_) => Some(ConnectedLoopExitReason::ReadFrameProcessorActorDropped),
            WriterAction::HandOverReader => Some(ConnectedLoopExitReason::ReadWebSocketActorDropped),
            WriterAction::TellReaderToDisconnect => Some(
                ConnectedLoopExitReason::ReadFrameProcessorActorDropped,
            ),
            _ => None,
        }
    }
}

pub open spec fn report(kind: ClientMessageKind, text: Seq<char>) -> WriterActionView {
    WriterActionView::Report(ReadFrameInputView::ClientMessage(ClientMessageView { kind, text }))
}

fn report_str(kind: ClientMessageKind, text: &'static str) -> (action: WriterAction)
    ensures
        action@ == report(kind, text@),
{
    WriterAction::Report(
        ReadFrameProcessorActorInputMessage::ClientMessage(
            WebSocketActorOutputClientMessage::from_parts(kind, SendableText::Str(text)),
        ),
    )
}

fn report_string(kind: ClientMessageKind, text: String) -> (action: WriterAction)
    ensures
        action@ == report(kind, text@),
{
    WriterAction::Report(
        ReadFrameProcessorActorInputMessage::ClientMessage(
            WebSocketActorOutputClientMessage::from_parts(kind, SendableText::String(text)),
        ),
    )
}

pub open spec fn machine(phase: WriterPhaseView, url: Option<ParsedUrlView>) -> WriterMachineView {
    WriterMachineView { phase, url }
}

/// A request to connect to `url_text`, from a machine that holds no
/// connection: an empty address and an unparsable one are reported as errors,
/// as is a URL without a host; otherwise the connection is opened.
pub open spec fn prepare_connect(url_text: Seq<char>, url: Option<ParsedUrlView>) -> (
    WriterMachineView,
    Seq<WriterActionView>,
) {
    if url_text.len() == 0 {
        (
            machine(WriterPhaseView::NotConnected, url),
            seq![report(ClientMessageKind::ConnectionError, ERROR_EMPTY_URL_PROVIDED@)],
        )
    } else {
        match url_parse_outcome(url_text) {
            Err(e) => (
                machine(WriterPhaseView::NotConnected, url),
                seq![report(ClientMessageKind::NotConnected, e)],
            ),
            Ok(parsed) => match host_and_port_of(parsed) {
                Err(e) => (
                    machine(WriterPhaseView::NotConnected, url),
                    seq![report(ClientMessageKind::ConnectionError, e)],
                ),
                Ok(address) => (
                    machine(WriterPhaseView::Connecting(parsed), url),
                    seq![WriterActionView::OpenConnection(address, parsed.serialization)],
                ),
            },
        }
    }
}

/// The end of a disconnection: the write half of the connection and the URL
/// are dropped, the disconnection is reported, and the machine either waits
/// again or connects elsewhere.
pub open spec fn finish_disconnect(then: AfterDisconnectView) -> (
    WriterMachineView,
    Seq<WriterActionView>,
) {
    let done = seq![
        WriterActionView::DropWriter,
        report(ClientMessageKind::Disconnected, SERVER_DISCONNECTED@),
    ];
    match then {
        AfterDisconnectView::Finish => (machine(WriterPhaseView::NotConnected, None), done),
        AfterDisconnectView::ConnectTo(url_text) => {
            let (m, actions) = prepare_connect(url_text, None);
            (m, done + actions)
        },
    }
}

/// The start of a disconnection: the close frame goes out.
pub open spec fn begin_disconnect(
    received_close_frame: bool,
    then: AfterDisconnectView,
    url: Option<ParsedUrlView>,
) -> (WriterMachineView, Seq<WriterActionView>) {
    (
        machine(WriterPhaseView::SendingClose(received_close_frame, then), url),
        seq![WriterActionView::SendCloseFrame],
    )
}

/// A request taken by the connected machine, from the reading actor when
/// `from_server` holds and from the user interface otherwise.
pub open spec fn connected_request(
    request: InputView,
    from_server: bool,
    url: Option<ParsedUrlView>,
) -> (WriterMachineView, Seq<WriterActionView>) {
    match request {
        InputView::ConnectTo(url_text) => if from_server {
            (machine(WriterPhaseView::Connected, url), Seq::empty())
        } else {
            begin_disconnect(false, AfterDisconnectView::ConnectTo(url_text), url)
        },
        InputView::Disconnect => begin_disconnect(false, AfterDisconnectView::Finish, url),
        InputView::WriteFrame(frame) => (
            machine(
                WriterPhaseView::Writing(
                    if frame.opcode == OpCode::Close {
                        Some(from_server)
                    } else {
                        None
                    },
                ),
                url,
            ),
            seq![WriterActionView::WriteFrame(frame)],
        ),
        InputView::SendPing => (machine(WriterPhaseView::Connected, url), Seq::empty()),
    }
}

/// The text reported when the reading actor asks for a connection during a
/// disconnection.
pub open spec fn busy_disconnecting_text(url_text: Seq<char>) -> Seq<char> {
    "Error: Cannot connect to "@ + url_text + " as the client is disconnecting."@
}

/// What the reading actor hands over while the machine waits for the reply to
/// its close frame.
pub open spec fn close_reply_message(
    message: Option<InputView>,
    then: AfterDisconnectView,
    url: Option<ParsedUrlView>,
) -> (WriterMachineView, Seq<WriterActionView>) {
    let waiting = machine(WriterPhaseView::AwaitingCloseReply(then), url);
    match message {
        None => (machine(WriterPhaseView::Stopped, url), Seq::empty()),
        Some(InputView::Disconnect) => (machine(WriterPhaseView::Stopped, url), Seq::empty()),
        Some(InputView::ConnectTo(url_text)) => (
            waiting,
            seq![report(ClientMessageKind::ConnectionError, busy_disconnecting_text(url_text))],
        ),
        Some(InputView::SendPing) => (waiting, Seq::empty()),
        Some(InputView::WriteFrame(frame)) => if frame.opcode == OpCode::Close {
            let (m, rest) = finish_disconnect(then);
            (
                m,
                seq![
                    WriterActionView::Report(
                        ReadFrameInputView::FrameAndMessage(
                            frame,
                            ClientMessageView {
                                kind: ClientMessageKind::CloseFrameReceived,
                                text: CLOSE_FRAME_RECEIVED@,
                            },
                        ),
                    ),
                    WriterActionView::TellReaderToDisconnect,
                ] + rest,
            )
        } else if frame.opcode == OpCode::Ping {
            (
                waiting,
                seq![
                    WriterActionView::Report(
                        ReadFrameInputView::FrameAndMessage(
                            frame,
                            ClientMessageView {
                                kind: ClientMessageKind::PingFrameReceived,
                                text: PING_FRAME_RECEIVED@,
                            },
                        ),
                    ),
                ],
            )
        } else {
            (waiting, seq![WriterActionView::Report(ReadFrameInputView::Frame(frame))])
        },
    }
}

/// One step of the writing actor: its next state and the actions to perform,
/// in order. An event the current phase does not wait for changes nothing.
pub open spec fn writer_step(m: WriterMachineView, e: WriterEventView) -> (
    WriterMachineView,
    Seq<WriterActionView>,
) {
    let unchanged = (m, Seq::<WriterActionView>::empty());
    match m.phase {
        WriterPhaseView::NotConnected => match e {
            WriterEventView::Input(None) => (machine(WriterPhaseView::Stopped, m.url), Seq::empty()),
            WriterEventView::Input(Some(InputView::ConnectTo(url_text))) => prepare_connect(
                url_text,
                m.url,
            ),
            WriterEventView::Input(Some(_)) => (
                m,
                seq![report(ClientMessageKind::NotConnected, ERROR_NO_SERVER_CONNECTED@)],
            ),
            _ => unchanged,
        },
        WriterPhaseView::Connecting(parsed) => match e {
            WriterEventView::ConnectOutcome(Err(text)) => (
                machine(WriterPhaseView::NotConnected, m.url),
                seq![report(ClientMessageKind::ConnectionError, text)],
            ),
            WriterEventView::ConnectOutcome(Ok(())) => (
                machine(WriterPhaseView::Connected, Some(parsed)),
                seq![
                    WriterActionView::HandOverReader,
                    report(ClientMessageKind::ConnectionSucceed, CONNECTION_SUCCEEDED@),
                ],
            ),
            _ => unchanged,
        },
        WriterPhaseView::Connected => match e {
            WriterEventView::FromReader(None) => (
                machine(WriterPhaseView::Stopped, m.url),
                Seq::empty(),
            ),
            WriterEventView::Input(None) => (machine(WriterPhaseView::Stopped, m.url), Seq::empty()),
            WriterEventView::FromReader(Some(request)) => connected_request(request, true, m.url),
            WriterEventView::Input(Some(request)) => connected_request(request, false, m.url),
            _ => unchanged,
        },
        WriterPhaseView::Writing(close) => match e {
            WriterEventView::WriteOutcome(Err(text)) => (
                machine(WriterPhaseView::NotConnected, None),
                seq![report(ClientMessageKind::ConnectionError, text)],
            ),
            WriterEventView::WriteOutcome(Ok(())) => match close {
                Some(from_server) => begin_disconnect(
                    from_server,
                    AfterDisconnectView::Finish,
                    m.url,
                ),
                None => (machine(WriterPhaseView::Connected, m.url), Seq::empty()),
            },
            _ => unchanged,
        },
        WriterPhaseView::SendingClose(received_close_frame, then) => match e {
            WriterEventView::CloseFrameOutcome(outcome) => {
                let error_report = match outcome {
                    Err(text) => seq![report(ClientMessageKind::ConnectionError, text)],
                    Ok(()) => Seq::empty(),
                };
                let sent = error_report + seq![
                    report(ClientMessageKind::Disconnecting, CLOSE_FRAME_SENT@),
                ];
                if received_close_frame {
                    let (next, rest) = finish_disconnect(then);
                    (next, sent + seq![WriterActionView::TellReaderToDisconnect] + rest)
                } else {
                    (
                        machine(WriterPhaseView::AwaitingCloseReply(then), m.url),
                        sent + seq![WriterActionView::StartCloseReplyTimer],
                    )
                }
            },
            _ => unchanged,
        },
        WriterPhaseView::AwaitingCloseReply(then) => match e {
            WriterEventView::FromReader(message) => close_reply_message(message, then, m.url),
            WriterEventView::CloseReplyTimedOut => {
                let (next, rest) = finish_disconnect(then);
                (
                    next,
                    seq![
                        report(ClientMessageKind::Disconnected, TIME_ELAPSED_FORCED_CLOSURE_NOTICE@),
                    ] + rest,
                )
            },
            _ => unchanged,
        },
        WriterPhaseView::Stopped => unchanged,
    }
}

pub open spec fn actions_view(actions: Seq<WriterAction>) -> Seq<WriterActionView> {
    actions.map_values(|a: WriterAction| a@)
}

fn single(action: WriterAction) -> (actions: Vec<WriterAction>)
    ensures
        actions_view(actions@) == seq![action@],
{
    let mut actions = Vec::new();
    actions.push(action);
    assert(actions_view(actions@) =~= seq![action@]);
    actions
}

fn push_action(actions: &mut Vec<WriterAction>, action: WriterAction)
    ensures
        actions_view(final(actions)@) == actions_view(old(actions)@).push(action@),
{
    actions.push(action);
    assert(actions_view(actions@) =~= actions_view(old(actions)@).push(action@));
}

fn append_actions(actions: &mut Vec<WriterAction>, mut more: Vec<WriterAction>)
    ensures
        actions_view(final(actions)@) == actions_view(old(actions)@) + actions_view(more@),
{
    let ghost first = actions_view(actions@);
    let ghost second = actions_view(more@);
    actions.append(&mut more);
    assert(actions_view(actions@) =~= first + second);
}

impl WebSocketActorMachine {
    /// A machine that is not connected and has no URL.
    pub fn new() -> (m: Self)
        ensures
            m@ == machine(WriterPhaseView::NotConnected, None),
    {
        WebSocketActorMachine { phase: WriterPhase::NotConnected, url: None }
    }

    /// Whether the actor has ended.
    pub fn is_stopped(&self) -> (stopped: bool)
        ensures
            stopped == (self@.phase is Stopped),
    {
        match self.phase {
            WriterPhase::Stopped => true,
            _ => false,
        }
    }

    fn prepare(url_text: String, url: Option<ParsedUrl>) -> (next: (Self, Vec<WriterAction>))
        ensures
            (next.0@, actions_view(next.1@)) == prepare_connect(
                url_text@,
                match url {
                    Some(u) => Some(u@),
                    None => None,
                },
            ),
    {
        if url_text.as_str().is_empty() {
            let actions = single(report_str(ClientMessageKind::ConnectionError, ERROR_EMPTY_URL_PROVIDED));
            return (WebSocketActorMachine { phase: WriterPhase::NotConnected, url }, actions);
        }
        match parse_url(url_text.as_str()) {
            Err(text) => {
                let actions = single(report_string(ClientMessageKind::NotConnected, text));
                (WebSocketActorMachine { phase: WriterPhase::NotConnected, url }, actions)
            },
            Ok(parsed) => match host_and_port(&parsed) {
                Err(text) => {
                    let actions = single(report_string(ClientMessageKind::ConnectionError, text));
                    (WebSocketActorMachine { phase: WriterPhase::NotConnected, url }, actions)
                },
                Ok(address) => {
                    let uri = parsed.serialization.clone();
                    let actions = single(WriterAction::OpenConnection(address, uri));
                    (WebSocketActorMachine { phase: WriterPhase::Connecting(parsed), url }, actions)
                },
            },
        }
    }
}


fn busy_disconnecting(url_text: &str) -> (text: String)
    ensures
        text@ == busy_disconnecting_text(url_text@),
{
    let mut text = String::from_str("Error: Cannot connect to ");
    text.append(url_text);
    text.append(" as the client is disconnecting.");
    text
}

impl WebSocketActorMachine {
    fn finish(then: AfterDisconnect) -> (next: (Self, Vec<WriterAction>))
        ensures
            (next.0@, actions_view(next.1@)) == finish_disconnect(then@),
    {
        let mut actions = single(WriterAction::DropWriter);
        push_action(&mut actions, report_str(ClientMessageKind::Disconnected, SERVER_DISCONNECTED));
        match then {
            AfterDisconnect::Finish => {
                (WebSocketActorMachine { phase: WriterPhase::NotConnected, url: None }, actions)
            },
            AfterDisconnect::ConnectTo(url_text) => {
                let (m, more) = Self::prepare(url_text, None);
                append_actions(&mut actions, more);
                (m, actions)
            },
        }
    }

    fn begin(received_close_frame: bool, then: AfterDisconnect, url: Option<ParsedUrl>) -> (next: (
        Self,
        Vec<WriterAction>,
    ))
        ensures
            (next.0@, actions_view(next.1@)) == begin_disconnect(
                received_close_frame,
                then@,
                match url {
                    Some(u) => Some(u@),
                    None => None,
                },
            ),
    {
        let actions = single(WriterAction::SendCloseFrame);
        (
            WebSocketActorMachine {
                phase: WriterPhase::SendingClose(received_close_frame, then),
                url,
            },
            actions,
        )
    }

    fn connected(request: WebSocketActorInputMessage, from_server: bool, url: Option<ParsedUrl>) -> (next: (
        Self,
        Vec<WriterAction>,
    ))
        ensures
            (next.0@, actions_view(next.1@)) == connected_request(
                request@,
                from_server,
                match url {
                    Some(u) => Some(u@),
                    None => None,
                },
            ),
    {
        match request {
            WebSocketActorInputMessage::ConnectTo(url_text) => {
                if from_server {
                    let actions: Vec<WriterAction> = Vec::new();
                    assert(actions_view(actions@) =~= Seq::empty());
                    (WebSocketActorMachine { phase: WriterPhase::Connected, url }, actions)
                } else {
                    Self::begin(false, AfterDisconnect::ConnectTo(url_text), url)
                }
            },
            WebSocketActorInputMessage::Disconnect => Self::begin(false, AfterDisconnect::Finish, url),
            WebSocketActorInputMessage::WriteFrame(frame) => {
                let close = if frame.opcode == OpCode::Close {
                    Some(from_server)
                } else {
                    None
                };
                let actions = single(WriterAction::WriteFrame(frame));
                (WebSocketActorMachine { phase: WriterPhase::Writing(close), url }, actions)
            },
            WebSocketActorInputMessage::SendPing => {
                let actions: Vec<WriterAction> = Vec::new();
                assert(actions_view(actions@) =~= Seq::empty());
                (WebSocketActorMachine { phase: WriterPhase::Connected, url }, actions)
            },
        }
    }

    fn close_reply(
        message: Option<WebSocketActorInputMessage>,
        then: AfterDisconnect,
        url: Option<ParsedUrl>,
    ) -> (next: (Self, Vec<WriterAction>))
        ensures
            (next.0@, actions_view(next.1@)) == close_reply_message(
                option_input_view(message),
                then@,
                match url {
                    Some(u) => Some(u@),
                    None => None,
                },
            ),
    {
        let ghost then_view = then@;
        match message {
            None => {
                let actions: Vec<WriterAction> = Vec::new();
                assert(actions_view(actions@) =~= Seq::empty());
                (WebSocketActorMachine { phase: WriterPhase::Stopped, url }, actions)
            },
            Some(WebSocketActorInputMessage::Disconnect) => {
                let actions: Vec<WriterAction> = Vec::new();
                assert(actions_view(actions@) =~= Seq::empty());
                (WebSocketActorMachine { phase: WriterPhase::Stopped, url }, actions)
            },
            Some(WebSocketActorInputMessage::SendPing) => {
                let actions: Vec<WriterAction> = Vec::new();
                assert(actions_view(actions@) =~= Seq::empty());
                (WebSocketActorMachine { phase: WriterPhase::AwaitingCloseReply(then), url }, actions)
            },
            Some(WebSocketActorInputMessage::ConnectTo(url_text)) => {
                let text = busy_disconnecting(url_text.as_str());
                let actions = single(report_string(ClientMessageKind::ConnectionError, text));
                (WebSocketActorMachine { phase: WriterPhase::AwaitingCloseReply(then), url }, actions)
            },
            Some(WebSocketActorInputMessage::WriteFrame(frame)) => {
                if frame.opcode == OpCode::Close {
                    let report = WriterAction::Report(
                        ReadFrameProcessorActorInputMessage::FrameAndMessage(
                            frame,
                            WebSocketActorOutputClientMessage::CloseFrameReceived(
                                SendableText::Str(CLOSE_FRAME_RECEIVED),
                            ),
                        ),
                    );
                    let mut actions = single(report);
                    push_action(&mut actions, WriterAction::TellReaderToDisconnect);
                    let (m, rest) = Self::finish(then);
                    append_actions(&mut actions, rest);
                    (m, actions)
                } else if frame.opcode == OpCode::Ping {
                    let report = WriterAction::Report(
                        ReadFrameProcessorActorInputMessage::FrameAndMessage(
                            frame,
                            WebSocketActorOutputClientMessage::PingFrameReceived(
                                SendableText::Str(PING_FRAME_RECEIVED),
                            ),
                        ),
                    );
                    let actions = single(report);
                    (WebSocketActorMachine { phase: WriterPhase::AwaitingCloseReply(then), url }, actions)
                } else {
                    let actions = single(
                        WriterAction::Report(ReadFrameProcessorActorInputMessage::Frame(frame)),
                    );
                    (WebSocketActorMachine { phase: WriterPhase::AwaitingCloseReply(then), url }, actions)
                }
            },
        }
    }

    /// One step of the writing actor.
    pub fn step(self, event: WriterEvent) -> (next: (Self, Vec<WriterAction>))
        ensures
            (next.0@, actions_view(next.1@)) == writer_step(self@, event@),
    {
        let ghost old_view = self@;
        let ghost event_view = event@;
        let WebSocketActorMachine { phase, url } = self;
        match phase {
            WriterPhase::NotConnected => match event {
                WriterEvent::Input(None) => {
                    let actions: Vec<WriterAction> = Vec::new();
                    assert(actions_view(actions@) =~= Seq::empty());
                    (WebSocketActorMachine { phase: WriterPhase::Stopped, url }, actions)
                },
                WriterEvent::Input(Some(WebSocketActorInputMessage::ConnectTo(url_text))) => {
                    Self::prepare(url_text, url)
                },
                WriterEvent::Input(Some(_)) => {
                    let actions = single(
                        report_str(ClientMessageKind::NotConnected, ERROR_NO_SERVER_CONNECTED),
                    );
                    (WebSocketActorMachine { phase: WriterPhase::NotConnected, url }, actions)
                },
                _ => {
                    let actions: Vec<WriterAction> = Vec::new();
                    assert(actions_view(actions@) =~= Seq::empty());
                    (WebSocketActorMachine { phase: WriterPhase::NotConnected, url }, actions)
                },
            },
            WriterPhase::Connecting(parsed) => match event {
                WriterEvent::ConnectOutcome(Err(text)) => {
                    let actions = single(report_string(ClientMessageKind::ConnectionError, text));
                    (WebSocketActorMachine { phase: WriterPhase::NotConnected, url }, actions)
                },
                WriterEvent::ConnectOutcome(Ok(())) => {
                    let mut actions = single(WriterAction::HandOverReader);
                    push_action(
                        &mut actions,
                        report_str(ClientMessageKind::ConnectionSucceed, CONNECTION_SUCCEEDED),
                    );
                    (WebSocketActorMachine { phase: WriterPhase::Connected, url: Some(parsed) }, actions)
                },
                _ => {
                    let actions: Vec<WriterAction> = Vec::new();
                    assert(actions_view(actions@) =~= Seq::empty());
                    (WebSocketActorMachine { phase: WriterPhase::Connecting(parsed), url }, actions)
                },
            },
            WriterPhase::Connected => match event {
                WriterEvent::FromReader(None) | WriterEvent::Input(None) => {
                    let actions: Vec<WriterAction> = Vec::new();
                    assert(actions_view(actions@) =~= Seq::empty());
                    (WebSocketActorMachine { phase: WriterPhase::Stopped, url }, actions)
                },
                WriterEvent::FromReader(Some(request)) => Self::connected(request, true, url),
                WriterEvent::Input(Some(request)) => Self::connected(request, false, url),
                _ => {
                    let actions: Vec<WriterAction> = Vec::new();
                    assert(actions_view(actions@) =~= Seq::empty());
                    (WebSocketActorMachine { phase: WriterPhase::Connected, url }, actions)
                },
            },
            WriterPhase::Writing(close) => match event {
                WriterEvent::WriteOutcome(Err(text)) => {
                    let actions = single(report_string(ClientMessageKind::ConnectionError, text));
                    (WebSocketActorMachine { phase: WriterPhase::NotConnected, url: None }, actions)
                },
                WriterEvent::WriteOutcome(Ok(())) => match close {
                    Some(from_server) => Self::begin(from_server, AfterDisconnect::Finish, url),
                    None => {
                        let actions: Vec<WriterAction> = Vec::new();
                        assert(actions_view(actions@) =~= Seq::empty());
                        (WebSocketActorMachine { phase: WriterPhase::Connected, url }, actions)
                    },
                },
                _ => {
                    let actions: Vec<WriterAction> = Vec::new();
                    assert(actions_view(actions@) =~= Seq::empty());
                    (WebSocketActorMachine { phase: WriterPhase::Writing(close), url }, actions)
                },
            },
            WriterPhase::SendingClose(received_close_frame, then) => match event {
                WriterEvent::CloseFrameOutcome(outcome) => {
                    let mut actions: Vec<WriterAction> = Vec::new();
                    match outcome {
                        Err(text) => {
                            push_action(
                                &mut actions,
                                report_string(ClientMessageKind::ConnectionError, text),
                            );
                        },
                        Ok(()) => {},
                    }
                    push_action(&mut actions, report_str(ClientMessageKind::Disconnecting, CLOSE_FRAME_SENT));
                    if received_close_frame {
                        push_action(&mut actions, WriterAction::TellReaderToDisconnect);
                        let (m, rest) = Self::finish(then);
                        append_actions(&mut actions, rest);
                        (m, actions)
                    } else {
                        push_action(&mut actions, WriterAction::StartCloseReplyTimer);
                        (
                            WebSocketActorMachine { phase: WriterPhase::AwaitingCloseReply(then), url },
                            actions,
                        )
                    }
                },
                _ => {
                    let actions: Vec<WriterAction> = Vec::new();
                    assert(actions_view(actions@) =~= Seq::empty());
                    (
                        WebSocketActorMachine {
                            phase: WriterPhase::SendingClose(received_close_frame, then),
                            url,
                        },
                        actions,
                    )
                },
            },
            WriterPhase::AwaitingCloseReply(then) => match event {
                WriterEvent::FromReader(message) => Self::close_reply(message, then, url),
                WriterEvent::CloseReplyTimedOut => {
                    let mut actions = single(
                        report_str(ClientMessageKind::Disconnected, TIME_ELAPSED_FORCED_CLOSURE_NOTICE),
                    );
                    let (m, rest) = Self::finish(then);
                    append_actions(&mut actions, rest);
                    (m, actions)
                },
                _ => {
                    let actions: Vec<WriterAction> = Vec::new();
                    assert(actions_view(actions@) =~= Seq::empty());
                    (WebSocketActorMachine { phase: WriterPhase::AwaitingCloseReply(then), url }, actions)
                },
            },
            WriterPhase::Stopped => {
                let actions: Vec<WriterAction> = Vec::new();
                assert(actions_view(actions@) =~= Seq::empty());
                (WebSocketActorMachine { phase: WriterPhase::Stopped, url }, actions)
            },
        }
    }
}


/// What the writing actor tells the reading actor.
#[derive(Debug, Clone, Copy, PartialEq, Eq, Structural)]
pub enum ReaderInput {
    /// A new read half of a connection is on its way: read from it from now on.
    Connected,
    /// Drop the current read half.
    Disconnect,
}

/// What the reading actor waits for.
#[derive(Debug, Clone, Copy, PartialEq, Eq, Structural)]
pub enum ReaderPhase {
    /// Waits for the writing actor.
    NotConnected,
    /// Waits for the writing actor first and the connection second.
    Connected,
    /// The actor has ended.
    Stopped,
}

/// Which of its two waits ended first in the connected reading actor.
pub enum ReaderSelection {
    /// The writing actor's message, or `None` when that channel closed.
    Connection(Option<ReaderInput>),
    /// A frame read from the server (copied into an owned frame), or the
    /// text of the read error.
    ReadFrame(Result<OwnedFrame, String>),
}

pub enum ReaderSelectionView {
    Connection(Option<ReaderInput>),
    ReadFrame(Result<OwnedFrameView, Seq<char>>),
}

impl View for ReaderSelection {
    type V = ReaderSelectionView;

    open spec fn view(&self) -> ReaderSelectionView {
        match self {
            ReaderSelection::Connection(input) => ReaderSelectionView::Connection(*input),
            ReaderSelection::ReadFrame(Ok(frame)) => ReaderSelectionView::ReadFrame(Ok(frame@)),
            ReaderSelection::ReadFrame(Err(text)) => ReaderSelectionView::ReadFrame(Err(text@)),
        }
    }
}

/// What the reading actor's runner hands it.
pub enum ReaderEvent {
    /// Not connected: the writing actor's message, or `None` when its channel closed.
    Input(Option<ReaderInput>),
    /// Connected: the frame that the connection library obliged the actor to
    /// answer while reading (a close or ping frame it was given), if any, and
    /// which wait ended first.
    Selected(Option<OwnedFrame>, ReaderSelection),
}

pub open spec fn option_frame_view(frame: Option<OwnedFrame>) -> Option<OwnedFrameView> {
    match frame {
        Some(f) => Some(f@),
        None => None,
    }
}

pub enum ReaderEventView {
    Input(Option<ReaderInput>),
    Selected(Option<OwnedFrameView>, ReaderSelectionView),
}

impl View for ReaderEvent {
    type V = ReaderEventView;

    open spec fn view(&self) -> ReaderEventView {
        match self {
            ReaderEvent::Input(input) => ReaderEventView::Input(*input),
            ReaderEvent::Selected(obligated, selection) => ReaderEventView::Selected(
                option_frame_view(*obligated),
                selection@,
            ),
        }
    }
}

/// What the reading actor's runner is to do.
pub enum ReaderAction {
    /// Send this message to the writing actor.
    ToWriter(WebSocketActorInputMessage),
    /// Send this (counted) message into the read-frame pipeline.
    Report(ReadFrameProcessorActorInputMessage),
    /// Read from the read half just received from now on.
    UseNewReader,
    /// Drop the current read half.
    DropReader,
}

pub enum ReaderActionView {
    ToWriter(InputView),
    Report(ReadFrameInputView),
    UseNewReader,
    DropReader,
}

impl View for ReaderAction {
    type V = ReaderActionView;

    open spec fn view(&self) -> ReaderActionView {
        match self {
            ReaderAction::ToWriter(m) => ReaderActionView::ToWriter(m@),
            ReaderAction::Report(m) => ReaderActionView::Report(m@),
            ReaderAction::UseNewReader => ReaderActionView::UseNewReader,
            ReaderAction::DropReader => ReaderActionView::DropReader,
        }
    }
}

/// A failed send of the reading actor ends it; it has no exit reason to give.
pub open spec fn reader_action_can_fail(action: ReaderActionView) -> bool {
    action is ToWriter || action is Report
}

pub open spec fn reader_actions_view(actions: Seq<ReaderAction>) -> Seq<ReaderActionView> {
    actions.map_values(|a: ReaderAction| a@)
}

/// The answer to a frame that the connection library obliged the actor to
/// answer: a close frame goes back to the writing actor with its payload
/// cleared, a ping frame goes back turned into a pong frame with the same
/// payload, and any other frame goes down the read-frame pipeline.
pub open spec fn obligated_answer(frame: OwnedFrameView) -> ReaderActionView {
    if frame.opcode == OpCode::Close {
        ReaderActionView::ToWriter(
            InputView::WriteFrame(OwnedFrameView { payload: Seq::empty(), ..frame }),
        )
    } else if frame.opcode == OpCode::Ping {
        ReaderActionView::ToWriter(
            InputView::WriteFrame(OwnedFrameView { opcode: OpCode::Pong, ..frame }),
        )
    } else {
        ReaderActionView::Report(ReadFrameInputView::Frame(frame))
    }
}

/// One step of the reading actor: its next phase and the actions to perform,
/// in order. An event the current phase does not wait for changes nothing.
/// When the writing actor's channel has closed while the reader is connected,
/// the reader stays connected and waits on both again.
pub open spec fn reader_step(phase: ReaderPhase, e: ReaderEventView) -> (
    ReaderPhase,
    Seq<ReaderActionView>,
) {
    match (phase, e) {
        (ReaderPhase::NotConnected, ReaderEventView::Input(input)) => match input {
            None => (ReaderPhase::Stopped, Seq::empty()),
            Some(ReaderInput::Connected) => (
                ReaderPhase::Connected,
                seq![ReaderActionView::UseNewReader],
            ),
            Some(ReaderInput::Disconnect) => (ReaderPhase::NotConnected, Seq::empty()),
        },
        (ReaderPhase::Connected, ReaderEventView::Selected(obligated, selection)) => {
            let first = match obligated {
                Some(frame) => seq![obligated_answer(frame)],
                None => Seq::empty(),
            };
            match selection {
                ReaderSelectionView::ReadFrame(Ok(frame)) => (
                    ReaderPhase::Connected,
                    first + seq![ReaderActionView::Report(ReadFrameInputView::Frame(frame))],
                ),
                ReaderSelectionView::ReadFrame(Err(text)) => (
                    ReaderPhase::Connected,
                    first + seq![
                        ReaderActionView::ToWriter(InputView::Disconnect),
                        ReaderActionView::Report(
                            ReadFrameInputView::ClientMessage(
                                ClientMessageView { kind: ClientMessageKind::ConnectionError, text },
                            ),
                        ),
                    ],
                ),
                ReaderSelectionView::Connection(Some(ReaderInput::Connected)) => (
                    ReaderPhase::Connected,
                    first + seq![ReaderActionView::UseNewReader],
                ),
                ReaderSelectionView::Connection(Some(ReaderInput::Disconnect)) => (
                    ReaderPhase::NotConnected,
                    first + seq![ReaderActionView::DropReader],
                ),
                ReaderSelectionView::Connection(None) => (ReaderPhase::Connected, first),
            }
        },
        _ => (phase, Seq::empty()),
    }
}

fn reader_single(action: ReaderAction) -> (actions: Vec<ReaderAction>)
    ensures
        reader_actions_view(actions@) == seq![action@],
{
    let mut actions = Vec::new();
    actions.push(action);
    assert(reader_actions_view(actions@) =~= seq![action@]);
    actions
}

fn reader_push(actions: &mut Vec<ReaderAction>, action: ReaderAction)
    ensures
        reader_actions_view(final(actions)@) == reader_actions_view(old(actions)@).push(action@),
{
    actions.push(action);
    assert(reader_actions_view(actions@) =~= reader_actions_view(old(actions)@).push(action@));
}

fn answer_obligated(frame: OwnedFrame) -> (action: ReaderAction)
    ensures
        action@ == obligated_answer(frame@),
{
    let mut frame = frame;
    match frame.opcode {
        OpCode::Close => {
            frame.payload.clear();
            ReaderAction::ToWriter(WebSocketActorInputMessage::WriteFrame(frame))
        },
        OpCode::Ping => {
            frame.opcode = OpCode::Pong;
            ReaderAction::ToWriter(WebSocketActorInputMessage::WriteFrame(frame))
        },
        _ => ReaderAction::Report(ReadFrameProcessorActorInputMessage::Frame(frame)),
    }
}

/// The reading actor's state.
pub struct ReadWebSocketActorMachine {
    pub phase: ReaderPhase,
}

impl ReadWebSocketActorMachine {
    pub fn new() -> (m: Self)
        ensures
            m.phase == ReaderPhase::NotConnected,
    {
        ReadWebSocketActorMachine { phase: ReaderPhase::NotConnected }
    }

    /// One step of the reading actor.
    pub fn step(&mut self, event: ReaderEvent) -> (actions: Vec<ReaderAction>)
        ensures
            (final(self).phase, reader_actions_view(actions@)) == reader_step(old(self).phase, event@),
    {
        match (self.phase, event) {
            (ReaderPhase::NotConnected, ReaderEvent::Input(input)) => match input {
                None => {
                    self.phase = ReaderPhase::Stopped;
                    let actions: Vec<ReaderAction> = Vec::new();
                    assert(reader_actions_view(actions@) =~= Seq::empty());
                    actions
                },
                Some(ReaderInput::Connected) => {
                    self.phase = ReaderPhase::Connected;
                    reader_single(ReaderAction::UseNewReader)
                },
                Some(ReaderInput::Disconnect) => {
                    let actions: Vec<ReaderAction> = Vec::new();
                    assert(reader_actions_view(actions@) =~= Seq::empty());
                    actions
                },
            },
            (ReaderPhase::Connected, ReaderEvent::Selected(obligated, selection)) => {
                let mut actions: Vec<ReaderAction> = Vec::new();
                assert(reader_actions_view(actions@) =~= Seq::empty());
                match obligated {
                    Some(frame) => {
                        let answer = answer_obligated(frame);
                        reader_push(&mut actions, answer);
                    },
                    None => {},
                }
                match selection {
                    ReaderSelection::ReadFrame(Ok(frame)) => {
                        reader_push(
                            &mut actions,
                            ReaderAction::Report(ReadFrameProcessorActorInputMessage::Frame(frame)),
                        );
                    },
                    ReaderSelection::ReadFrame(Err(text)) => {
                        reader_push(
                            &mut actions,
                            ReaderAction::ToWriter(WebSocketActorInputMessage::Disconnect),
                        );
                        reader_push(
                            &mut actions,
                            ReaderAction::Report(
                                ReadFrameProcessorActorInputMessage::ClientMessage(
                                    WebSocketActorOutputClientMessage::ConnectionError(
                                        SendableText::String(text),
                                    ),
                                ),
                            ),
                        );
                    },
                    ReaderSelection::Connection(Some(ReaderInput::Connected)) => {
                        reader_push(&mut actions, ReaderAction::UseNewReader);
                    },
                    ReaderSelection::Connection(Some(ReaderInput::Disconnect)) => {
                        self.phase = ReaderPhase::NotConnected;
                        reader_push(&mut actions, ReaderAction::DropReader);
                    },
                    ReaderSelection::Connection(None) => {},
                }
                actions
            },
            _ => {
                let actions: Vec<ReaderAction> = Vec::new();
                assert(reader_actions_view(actions@) =~= Seq::empty());
                actions
            },
        }
    }
}


/// The writing actor holds a URL exactly while it holds a connection: not in
/// its waiting and connecting phases, and in every phase of a live connection.
pub open spec fn writer_url_consistent(m: WriterMachineView) -> bool {
    match m.phase {
        WriterPhaseView::NotConnected | WriterPhaseView::Connecting(_) => m.url is None,
        WriterPhaseView::Connected
        | WriterPhaseView::Writing(_)
        | WriterPhaseView::SendingClose(_, _)
        | WriterPhaseView::AwaitingCloseReply(_) => m.url is Some,
        WriterPhaseView::Stopped => true,
    }
}

/// A new writing actor holds no URL, and every step keeps the URL in line with
/// the connection: the URL is dropped whenever the connection is.
pub proof fn lemma_writer_url_follows_connection(m: WriterMachineView, e: WriterEventView)
    requires
        writer_url_consistent(m),
    ensures
        writer_url_consistent(writer_step(m, e).0),
        writer_url_consistent(machine(WriterPhaseView::NotConnected, None)),
{
}

/// Every disconnection of the writing actor that completes drops the write
/// half of the connection first, then reports that the server disconnected,
/// and forgets the URL.
pub proof fn lemma_writer_disconnection_drops_writer(then: AfterDisconnectView)
    ensures
        finish_disconnect(then).1.len() >= 2,
        finish_disconnect(then).1[0] == WriterActionView::DropWriter,
        finish_disconnect(then).1[1] == report(ClientMessageKind::Disconnected, SERVER_DISCONNECTED@),
        finish_disconnect(then).0.url is None,
{
}

/// Once stopped, the writing actor stays stopped and does nothing more.
pub proof fn lemma_writer_stop_is_final(m: WriterMachineView, e: WriterEventView)
    requires
        m.phase is Stopped,
    ensures
        writer_step(m, e) == (m, Seq::<WriterActionView>::empty()),
{
}

/// Every send of the writing actor whose failure it notices stands for a
/// dropped pipeline actor, and such a failure always ends the actor.
pub proof fn lemma_writer_send_failure_stops(action: WriterActionView)
    ensures
        match writer_action_failure(action) {
            Some(reason) => !spec_continue_or_not(Some(reason)),
            None => true,
        },
{
}

/// While not connected, every request but a connection request is refused
/// with the "no server connected" report, and nothing else changes.
pub proof fn lemma_not_connected_refuses(url: Option<ParsedUrlView>, request: InputView)
    requires
        !(request is ConnectTo),
    ensures
        writer_step(
            machine(WriterPhaseView::NotConnected, url),
            WriterEventView::Input(Some(request)),
        ) == (
            machine(WriterPhaseView::NotConnected, url),
            seq![report(ClientMessageKind::NotConnected, ERROR_NO_SERVER_CONNECTED@)],
        ),
{
}

/// A connection is only ever opened to the host and port of an address that
/// parsed and has a host, for that address's URL; an empty address is refused
/// without any parsing.
pub proof fn lemma_connection_only_to_parsed_host(
    m: WriterMachineView,
    e: WriterEventView,
    i: int,
)
    requires
        0 <= i < writer_step(m, e).1.len(),
        writer_step(m, e).1[i] is OpenConnection,
    ensures
        writer_step(m, e).0.phase is Connecting,
        ({
            let parsed = writer_step(m, e).0.phase->Connecting_0;
            &&& host_and_port_of(parsed) == Ok::<Seq<char>, Seq<char>>(
                writer_step(m, e).1[i]->OpenConnection_0,
            )
            &&& writer_step(m, e).1[i]->OpenConnection_1 == parsed.serialization
        }),
{
}

/// An empty address never leads to a connection: it is reported as an error
/// and the actor keeps waiting.
pub proof fn lemma_empty_address_refused(url: Option<ParsedUrlView>)
    ensures
        writer_step(
            machine(WriterPhaseView::NotConnected, url),
            WriterEventView::Input(Some(InputView::ConnectTo(Seq::empty()))),
        ) == (
            machine(WriterPhaseView::NotConnected, url),
            seq![report(ClientMessageKind::ConnectionError, ERROR_EMPTY_URL_PROVIDED@)],
        ),
{
}

/// Every frame the connected reading actor reads goes down the read-frame
/// pipeline, as its last action, and the actor stays connected.
pub proof fn lemma_read_frames_reach_pipeline(
    obligated: Option<OwnedFrameView>,
    frame: OwnedFrameView,
)
    ensures
        ({
            let (phase, actions) = reader_step(
                ReaderPhase::Connected,
                ReaderEventView::Selected(obligated, ReaderSelectionView::ReadFrame(Ok(frame))),
            );
            &&& phase == ReaderPhase::Connected
            &&& actions.len() >= 1
            &&& actions.last() == ReaderActionView::Report(ReadFrameInputView::Frame(frame))
        }),
{
}

/// A ping the connection library had to answer goes back to the writing actor
/// as a pong frame with the ping's flag and payload, before anything else.
pub proof fn lemma_ping_answered_with_pong(ping: OwnedFrameView, selection: ReaderSelectionView)
    requires
        ping.opcode == OpCode::Ping,
    ensures
        ({
            let actions = reader_step(
                ReaderPhase::Connected,
                ReaderEventView::Selected(Some(ping), selection),
            ).1;
            &&& actions.len() >= 1
            &&& actions[0] == ReaderActionView::ToWriter(
                InputView::WriteFrame(
                    OwnedFrameView { fin: ping.fin, opcode: OpCode::Pong, payload: ping.payload },
                ),
            )
        }),
{
}

/// Once stopped, the reading actor stays stopped and does nothing more.
pub proof fn lemma_reader_stop_is_final(e: ReaderEventView)
    ensures
        reader_step(ReaderPhase::Stopped, e) == (ReaderPhase::Stopped, Seq::<ReaderActionView>::empty()),
{
}


/// The report of the given kind and text, as the pipeline receives it.
pub open spec fn client_report(kind: ClientMessageKind, text: Seq<char>) -> WriterActionView {
    WriterActionView::Report(ReadFrameInputView::ClientMessage(ClientMessageView { kind, text }))
}

/// A connected writing actor takes the user interface's requests: a frame is
/// written (awaiting the outcome, and marked as a close handshake when it is a
/// close frame), a disconnection or a connection elsewhere starts the close
/// handshake, and a closed interface ends the actor; the URL is kept.
pub proof fn lemma_connected_writer_takes_requests(
    url: Option<ParsedUrlView>,
    frame: OwnedFrameView,
    url_text: Seq<char>,
)
    ensures
        writer_step(
            WriterMachineView { phase: WriterPhaseView::Connected, url },
            WriterEventView::Input(Some(InputView::WriteFrame(frame))),
        ) == (
            WriterMachineView {
                phase: WriterPhaseView::Writing(
                    if frame.opcode == OpCode::Close {
                        Some(false)
                    } else {
                        None
                    },
                ),
                url,
            },
            seq![WriterActionView::WriteFrame(frame)],
        ),
        writer_step(
            WriterMachineView { phase: WriterPhaseView::Connected, url },
            WriterEventView::Input(Some(InputView::Disconnect)),
        ) == (
            WriterMachineView {
                phase: WriterPhaseView::SendingClose(false, AfterDisconnectView::Finish),
                url,
            },
            seq![WriterActionView::SendCloseFrame],
        ),
        writer_step(
            WriterMachineView { phase: WriterPhaseView::Connected, url },
            WriterEventView::Input(Some(InputView::ConnectTo(url_text))),
        ) == (
            WriterMachineView {
                phase: WriterPhaseView::SendingClose(false, AfterDisconnectView::ConnectTo(url_text)),
                url,
            },
            seq![WriterActionView::SendCloseFrame],
        ),
        writer_step(
            WriterMachineView { phase: WriterPhaseView::Connected, url },
            WriterEventView::Input(None),
        ) == (WriterMachineView { phase: WriterPhaseView::Stopped, url }, Seq::<WriterActionView>::empty()),
{
}

/// After a frame was written: a frame that is not a close frame leaves the
/// writer connected, with the same URL and nothing to do, ready for the next
/// request; a written close frame starts the close handshake; a failed write
/// is reported and leaves the writer without a connection.
pub proof fn lemma_write_outcome(url: Option<ParsedUrlView>, from_server: bool, text: Seq<char>)
    ensures
        writer_step(
            WriterMachineView { phase: WriterPhaseView::Writing(None), url },
            WriterEventView::WriteOutcome(Ok(())),
        ) == (WriterMachineView { phase: WriterPhaseView::Connected, url }, Seq::<WriterActionView>::empty()),
        writer_step(
            WriterMachineView { phase: WriterPhaseView::Writing(Some(from_server)), url },
            WriterEventView::WriteOutcome(Ok(())),
        ) == (
            WriterMachineView {
                phase: WriterPhaseView::SendingClose(from_server, AfterDisconnectView::Finish),
                url,
            },
            seq![WriterActionView::SendCloseFrame],
        ),
        writer_step(
            WriterMachineView { phase: WriterPhaseView::Writing(None), url },
            WriterEventView::WriteOutcome(Err(text)),
        ) == (
            WriterMachineView { phase: WriterPhaseView::NotConnected, url: None },
            seq![client_report(ClientMessageKind::ConnectionError, text)],
        ),
{
}

/// The outcome of opening a connection: on success the writer hands the read
/// half over, reports the connection and is connected to the parsed URL; on
/// failure it reports the error and waits again.
pub proof fn lemma_connect_outcome(url: Option<ParsedUrlView>, parsed: ParsedUrlView, text: Seq<char>)
    ensures
        writer_step(
            WriterMachineView { phase: WriterPhaseView::Connecting(parsed), url },
            WriterEventView::ConnectOutcome(Ok(())),
        ) == (
            WriterMachineView { phase: WriterPhaseView::Connected, url: Some(parsed) },
            seq![
                WriterActionView::HandOverReader,
                client_report(ClientMessageKind::ConnectionSucceed, CONNECTION_SUCCEEDED@),
            ],
        ),
        writer_step(
            WriterMachineView { phase: WriterPhaseView::Connecting(parsed), url },
            WriterEventView::ConnectOutcome(Err(text)),
        ) == (
            WriterMachineView { phase: WriterPhaseView::NotConnected, url },
            seq![client_report(ClientMessageKind::ConnectionError, text)],
        ),
{
}

/// A close frame the connection library had to answer goes back to the
/// writing actor first, with its flag and opcode kept and its payload emptied.
pub proof fn lemma_close_answered_with_close(close: OwnedFrameView, selection: ReaderSelectionView)
    requires
        close.opcode == OpCode::Close,
    ensures
        ({
            let actions = reader_step(
                ReaderPhase::Connected,
                ReaderEventView::Selected(Some(close), selection),
            ).1;
            &&& actions.len() >= 1
            &&& actions[0] == ReaderActionView::ToWriter(
                InputView::WriteFrame(
                    OwnedFrameView { fin: close.fin, opcode: OpCode::Close, payload: Seq::empty() },
                ),
            )
        }),
{
}

/// A connected reading actor with nothing to answer: a frame it reads is its
/// only action, sent down the pipeline unchanged; a read error asks the writer
/// to disconnect and reports the error; the writer's disconnection drops the
/// read half. Only the disconnection ends the connected phase.
pub proof fn lemma_connected_reader(frame: OwnedFrameView, text: Seq<char>)
    ensures
        reader_step(
            ReaderPhase::Connected,
            ReaderEventView::Selected(None, ReaderSelectionView::ReadFrame(Ok(frame))),
        ) == (ReaderPhase::Connected, seq![ReaderActionView::Report(ReadFrameInputView::Frame(frame))]),
        reader_step(
            ReaderPhase::Connected,
            ReaderEventView::Selected(None, ReaderSelectionView::ReadFrame(Err(text))),
        ) == (
            ReaderPhase::Connected,
            seq![
                ReaderActionView::ToWriter(InputView::Disconnect),
                ReaderActionView::Report(
                    ReadFrameInputView::ClientMessage(
                        ClientMessageView { kind: ClientMessageKind::ConnectionError, text },
                    ),
                ),
            ],
        ),
        reader_step(
            ReaderPhase::Connected,
            ReaderEventView::Selected(None, ReaderSelectionView::Connection(Some(ReaderInput::Disconnect))),
        ) == (ReaderPhase::NotConnected, seq![ReaderActionView::DropReader]),
{
}


/// The close handshake of the writing actor: once the close frame is sent it
/// reports that it is disconnecting and waits for the reply; the reply (a close
/// frame handed over by the reader) is reported with its frame, the reader is
/// told to drop its half, the write half is dropped, the URL forgotten and the
/// disconnection reported. While it waits, a data frame goes down the
/// pipeline, a ping is reported with its frame, and a request to connect is
/// refused with an error.
pub proof fn lemma_writer_close_handshake(
    url: Option<ParsedUrlView>,
    reply: OwnedFrameView,
    data: OwnedFrameView,
    ping: OwnedFrameView,
    url_text: Seq<char>,
)
    requires
        reply.opcode == OpCode::Close,
        data.opcode == OpCode::Text || data.opcode == OpCode::Binary || data.opcode
            == OpCode::Continuation || data.opcode == OpCode::Pong,
        ping.opcode == OpCode::Ping,
    ensures
        writer_step(
            WriterMachineView {
                phase: WriterPhaseView::SendingClose(false, AfterDisconnectView::Finish),
                url,
            },
            WriterEventView::CloseFrameOutcome(Ok(())),
        ) == (
            WriterMachineView {
                phase: WriterPhaseView::AwaitingCloseReply(AfterDisconnectView::Finish),
                url,
            },
            seq![
                client_report(ClientMessageKind::Disconnecting, CLOSE_FRAME_SENT@),
                WriterActionView::StartCloseReplyTimer,
            ],
        ),
        writer_step(
            WriterMachineView {
                phase: WriterPhaseView::AwaitingCloseReply(AfterDisconnectView::Finish),
                url,
            },
            WriterEventView::FromReader(Some(InputView::WriteFrame(reply))),
        ) == (
            WriterMachineView { phase: WriterPhaseView::NotConnected, url: None },
            seq![
                WriterActionView::Report(
                    ReadFrameInputView::FrameAndMessage(
                        reply,
                        ClientMessageView {
                            kind: ClientMessageKind::CloseFrameReceived,
                            text: CLOSE_FRAME_RECEIVED@,
                        },
                    ),
                ),
                WriterActionView::TellReaderToDisconnect,
                WriterActionView::DropWriter,
                client_report(ClientMessageKind::Disconnected, SERVER_DISCONNECTED@),
            ],
        ),
        writer_step(
            WriterMachineView {
                phase: WriterPhaseView::AwaitingCloseReply(AfterDisconnectView::Finish),
                url,
            },
            WriterEventView::FromReader(Some(InputView::WriteFrame(data))),
        ) == (
            WriterMachineView {
                phase: WriterPhaseView::AwaitingCloseReply(AfterDisconnectView::Finish),
                url,
            },
            seq![WriterActionView::Report(ReadFrameInputView::Frame(data))],
        ),
        writer_step(
            WriterMachineView {
                phase: WriterPhaseView::AwaitingCloseReply(AfterDisconnectView::Finish),
                url,
            },
            WriterEventView::FromReader(Some(InputView::WriteFrame(ping))),
        ) == (
            WriterMachineView {
                phase: WriterPhaseView::AwaitingCloseReply(AfterDisconnectView::Finish),
                url,
            },
            seq![
                WriterActionView::Report(
                    ReadFrameInputView::FrameAndMessage(
                        ping,
                        ClientMessageView {
                            kind: ClientMessageKind::PingFrameReceived,
                            text: PING_FRAME_RECEIVED@,
                        },
                    ),
                ),
            ],
        ),
        writer_step(
            WriterMachineView {
                phase: WriterPhaseView::AwaitingCloseReply(AfterDisconnectView::Finish),
                url,
            },
            WriterEventView::FromReader(Some(InputView::ConnectTo(url_text))),
        ) == (
            WriterMachineView {
                phase: WriterPhaseView::AwaitingCloseReply(AfterDisconnectView::Finish),
                url,
            },
            seq![
                client_report(
                    ClientMessageKind::ConnectionError,
                    "Error: Cannot connect to "@ + url_text + " as the client is disconnecting."@,
                ),
            ],
        ),
{
}

/// A request to connect to a text that does not parse as a URL is reported
/// with the parser's error, and one to a URL without a host with
/// `HOST_NOT_FOUND`; the writer keeps waiting either way. A URL with a host
/// opens a connection to its host and port (port 80 when it names none).
pub proof fn lemma_writer_connect_request(url: Option<ParsedUrlView>, url_text: Seq<char>)
    requires
        url_text.len() > 0,
    ensures
        url_parse_outcome(url_text) is Err ==> writer_step(
            WriterMachineView { phase: WriterPhaseView::NotConnected, url },
            WriterEventView::Input(Some(InputView::ConnectTo(url_text))),
        ) == (
            WriterMachineView { phase: WriterPhaseView::NotConnected, url },
            seq![
                client_report(ClientMessageKind::NotConnected, url_parse_outcome(url_text)->Err_0),
            ],
        ),
        (url_parse_outcome(url_text) is Ok && url_parse_outcome(url_text)->Ok_0.host is None)
            ==> writer_step(
            WriterMachineView { phase: WriterPhaseView::NotConnected, url },
            WriterEventView::Input(Some(InputView::ConnectTo(url_text))),
        ) == (
            WriterMachineView { phase: WriterPhaseView::NotConnected, url },
            seq![client_report(ClientMessageKind::ConnectionError, HOST_NOT_FOUND@)],
        ),
        (url_parse_outcome(url_text) is Ok && url_parse_outcome(url_text)->Ok_0.host is Some) ==> {
            let parsed = url_parse_outcome(url_text)->Ok_0;
            let host = parsed.host->Some_0;
            let address = match parsed.port {
                Some(port) => host + ":"@ + decimal(port as nat),
                None => host + ":80"@,
            };
            writer_step(
                WriterMachineView { phase: WriterPhaseView::NotConnected, url },
                WriterEventView::Input(Some(InputView::ConnectTo(url_text))),
            ) == (
                WriterMachineView { phase: WriterPhaseView::Connecting(parsed), url },
                seq![WriterActionView::OpenConnection(address, parsed.serialization)],
            )
        },
{
}


/// A waiting reading actor starts reading from a read half it is handed, keeps
/// waiting when told to disconnect, and ends when the writer's channel closes.
pub proof fn lemma_waiting_reader()
    ensures
        reader_step(ReaderPhase::NotConnected, ReaderEventView::Input(Some(ReaderInput::Connected)))
            == (ReaderPhase::Connected, seq![ReaderActionView::UseNewReader]),
        reader_step(ReaderPhase::NotConnected, ReaderEventView::Input(Some(ReaderInput::Disconnect)))
            == (ReaderPhase::NotConnected, Seq::<ReaderActionView>::empty()),
        reader_step(ReaderPhase::NotConnected, ReaderEventView::Input(None)) == (
            ReaderPhase::Stopped,
            Seq::<ReaderActionView>::empty(),
        ),
{
}

/// An actor that another actor of its pipeline has left stops; a failed
/// connection or a bad request leaves it ready for the next request.
pub proof fn lemma_exit_reasons()
    ensures
        !ConnectedLoopExitReason::ReadFrameProcessorActorDropped.spec_should_continue(),
        !ConnectedLoopExitReason::ReadWebSocketActorDropped.spec_should_continue(),
        ConnectedLoopExitReason::ServerDisconnectedOrConnectionError.spec_should_continue(),
        ConnectedLoopExitReason::InvalidInput.spec_should_continue(),
{
}

} // verus!

//! The decisions of the single WebSocket actor, which owns the whole
//! connection: it reads frames from the server and takes the user interface's
//! requests on the same task, and reports through the read-frame pipeline.
//!
//! The actor is a state machine here; its runner (in the application) waits
//! for what the current phase waits for, lets the machine step on it, and
//! performs the returned actions in order. A report that cannot be sent ends
//! the actor (shutting the connection down first when the action says so).
use vstd::prelude::*;

use super::owned_frame::{OpCode, OwnedFrame};
use super::web_socket_actor_messages::{
    option_input_view, outcome_view, ClientMessageKind, ClientMessageView, InputView,
    OwnedFrameView, ReadFrameInputView, ReadFrameProcessorActorInputMessage, SendableText,
    WebSocketActorInputMessage, WebSocketActorOutputClientMessage,
};

verus! {

pub const CONNECTION_SUCCEEDED: &'static str = "Connection succeeded!";

pub const ERROR_EMPTY_URL_PROVIDED: &'static str = "Error: Empty URL provided.";

pub const SERVER_DISCONNECTED: &'static str = "Server disconnected";

pub const ERROR_NO_SERVER_CONNECTED: &'static str = "Error: No server connected.";

pub const CLOSE_FRAME_SENT: &'static str = "Close frame Sent.";

pub const TIME_ELAPSED_FORCED_CLOSURE_NOTICE: &'static str =
    "Close Connection Response Time Has Elapsed: Forcing closure of connection.";

pub const SERVER_DISCONNECTION_FORCED: &'static str = "Forced server disconnection";

pub const PING_RECEIVED: &'static str = "Ping frame received (pong frame automatically sent).";

pub const PING_SENT: &'static str = "Ping frame sent.";

pub const PONG_RECEIVED: &'static str = "Pong frame received.";

/// How long the actor waits for the server's reply to its close frame, in seconds.
pub const CLOSE_REPLY_WAIT_SECONDS: u64 = 10;

/// Why a connected loop of the actor ended.
#[derive(Debug, Clone, Copy, PartialEq, Eq, Structural)]
pub enum ConnectedLoopExitReason {
    ActorIOClientDisconnected,
    ServerDisconnectedOrConnectionError,
    InvalidInput,
}

impl ConnectedLoopExitReason {
    /// The actor goes on after a failed connection or a bad request, but not
    /// once the other end of its pipeline is gone.
    pub open spec fn spec_should_continue(self) -> bool {
        match self {
            ConnectedLoopExitReason::ActorIOClientDisconnected => false,
            ConnectedLoopExitReason::ServerDisconnectedOrConnectionError
            | ConnectedLoopExitReason::InvalidInput => true,
        }
    }

    pub fn should_continue(&self) -> (go_on: bool)
        ensures
            go_on == self.spec_should_continue(),
    {
        match self {
            ConnectedLoopExitReason::ActorIOClientDisconnected => false,
            ConnectedLoopExitReason::ServerDisconnectedOrConnectionError
            | ConnectedLoopExitReason::InvalidInput => true,
        }
    }
}

/// Whether the actor goes on after an operation that ended with this (no
/// reason: it went well).
pub open spec fn spec_continue_or_not(opt_cler: Option<ConnectedLoopExitReason>) -> bool {
    match opt_cler {
        Some(reason) => reason.spec_should_continue(),
        None => true,
    }
}

pub fn continue_or_not(opt_cler: &Option<ConnectedLoopExitReason>) -> (go_on: bool)
    ensures
        go_on == spec_continue_or_not(*opt_cler),
{
    match opt_cler {
        Some(reason) => reason.should_continue(),
        None => true,
    }
}

/// What the actor does once a disconnection is over.
pub enum AfterDisconnect {
    Finish,
    ConnectTo(String),
}

pub enum AfterDisconnectView {
    Finish,
    ConnectTo(Seq<char>),
}

impl View for AfterDisconnect {
    type V = AfterDisconnectView;

    open spec fn view(&self) -> AfterDisconnectView {
        match self {
            AfterDisconnect::Finish => AfterDisconnectView::Finish,
            AfterDisconnect::ConnectTo(url) => AfterDisconnectView::ConnectTo(url@),
        }
    }
}

/// What the actor waits for.
pub enum ActorPhase {
    /// Not connected: waits for the user interface.
    NotConnected,
    /// Waits for the outcome of connecting to this address.
    Connecting(String),
    /// Connected: waits for the user interface and for frames from the server.
    Connected,
    /// Waits for the outcome of writing a frame.
    Writing,
    /// Waits for the outcome of writing a ping frame.
    SendingPing,
    /// Waits for the outcome of writing the close frame; whether the server
    /// closed first, and what comes after the disconnection.
    SendingClose(bool, AfterDisconnect),
    /// Waits for the server's reply to the close frame, reading frames,
    /// until `CLOSE_REPLY_WAIT_SECONDS` have passed.
    AwaitingCloseReply(AfterDisconnect),
    /// The actor has ended.
    Stopped,
}

pub enum ActorPhaseView {
    NotConnected,
    Connecting(Seq<char>),
    Connected,
    Writing,
    SendingPing,
    SendingClose(bool, AfterDisconnectView),
    AwaitingCloseReply(AfterDisconnectView),
    Stopped,
}

impl View for ActorPhase {
    type V = ActorPhaseView;

    open spec fn view(&self) -> ActorPhaseView {
        match self {
            ActorPhase::NotConnected => ActorPhaseView::NotConnected,
            ActorPhase::Connecting(url) => ActorPhaseView::Connecting(url@),
            ActorPhase::Connected => ActorPhaseView::Connected,
            ActorPhase::Writing => ActorPhaseView::Writing,
            ActorPhase::SendingPing => ActorPhaseView::SendingPing,
            ActorPhase::SendingClose(received, then) => ActorPhaseView::SendingClose(
                *received,
                then@,
            ),
            ActorPhase::AwaitingCloseReply(then) => ActorPhaseView::AwaitingCloseReply(then@),
            ActorPhase::Stopped => ActorPhaseView::Stopped,
        }
    }
}

/// The actor's state: what it waits for and the address it last connected to.
pub struct WebSocketActorMachine {
    pub phase: ActorPhase,
    pub url: Option<String>,
}

pub struct ActorMachineView {
    pub phase: ActorPhaseView,
    pub url: Option<Seq<char>>,
}

impl View for WebSocketActorMachine {
    type V = ActorMachineView;

    open spec fn view(&self) -> ActorMachineView {
        ActorMachineView {
            phase: self.phase@,
            url: match self.url {
                Some(u) => Some(u@),
                None => None,
            },
        }
    }
}

pub open spec fn option_string_view(s: Option<String>) -> Option<Seq<char>> {
    match s {
        Some(s) => Some(s@),
        None => None,
    }
}

/// What the actor's runner hands it.
pub enum ActorEvent {
    /// A message from the user interface, or `None` when its channel closed.
    Input(Option<WebSocketActorInputMessage>),
    /// A frame read from the server (counted into the read pipeline as it was
    /// read), or the text of the read error.
    ReadOutcome(Result<OwnedFrame, String>),
    ConnectOutcome(Result<(), String>),
    WriteOutcome(Result<(), String>),
    PingOutcome(Result<(), String>),
    CloseFrameOutcome(Result<(), String>),
    /// The `CLOSE_REPLY_WAIT_SECONDS` for the reply to the close frame have passed.
    CloseReplyTimedOut,
}

pub enum ActorEventView {
    Input(Option<InputView>),
    ReadOutcome(Result<OwnedFrameView, Seq<char>>),
    ConnectOutcome(Result<(), Seq<char>>),
    WriteOutcome(Result<(), Seq<char>>),
    PingOutcome(Result<(), Seq<char>>),
    CloseFrameOutcome(Result<(), Seq<char>>),
    CloseReplyTimedOut,
}

impl View for ActorEvent {
    type V = ActorEventView;

    open spec fn view(&self) -> ActorEventView {
        match self {
            ActorEvent::Input(m) => ActorEventView::Input(option_input_view(*m)),
            ActorEvent::ReadOutcome(Ok(f)) => ActorEventView::ReadOutcome(Ok(f@)),
            ActorEvent::ReadOutcome(Err(e)) => ActorEventView::ReadOutcome(Err(e@)),
            ActorEvent::ConnectOutcome(r) => ActorEventView::ConnectOutcome(outcome_view(*r)),
            ActorEvent::WriteOutcome(r) => ActorEventView::WriteOutcome(outcome_view(*r)),
            ActorEvent::PingOutcome(r) => ActorEventView::PingOutcome(outcome_view(*r)),
            ActorEvent::CloseFrameOutcome(r) => ActorEventView::CloseFrameOutcome(outcome_view(*r)),
            ActorEvent::CloseReplyTimedOut => ActorEventView::CloseReplyTimedOut,
        }
    }
}

/// What the actor's runner is to do.
pub enum ActorAction {
    /// Send this message into the read-frame pipeline. If the send fails the
    /// actor ends, shutting the connection down first when the flag is set.
    Report(ReadFrameProcessorActorInputMessage, bool),
    /// Open a TCP connection to this address and make the WebSocket handshake
    /// with it; the outcome comes back as `ConnectOutcome`.
    OpenConnection(String),
    /// Write this frame; the outcome comes back as `WriteOutcome`.
    WriteFrame(OwnedFrame),
    /// Write a final ping frame with an empty payload; the outcome comes back
    /// as `PingOutcome`.
    SendPingFrame,
    /// Write a close frame with an empty payload; the outcome comes back as
    /// `CloseFrameOutcome`.
    SendCloseFrame,
    /// Start the wait of `CLOSE_REPLY_WAIT_SECONDS` for the reply to the close frame.
    StartCloseReplyTimer,
    /// Take back the count of the frame just read: it does not go down the pipeline.
    UncountReadFrame,
    /// Shut the connection down (a failure there is fatal) and drop it.
    Shutdown,
    /// Drop the connection without shutting it down.
    DropConnection,
}

pub enum ActorActionView {
    Report(ReadFrameInputView, bool),
    OpenConnection(Seq<char>),
    WriteFrame(OwnedFrameView),
    SendPingFrame,
    SendCloseFrame,
    StartCloseReplyTimer,
    UncountReadFrame,
    Shutdown,
    DropConnection,
}

impl View for ActorAction {
    type V = ActorActionView;

    open spec fn view(&self) -> ActorActionView {
        match self {
            ActorAction::Report(m, shutdown) => ActorActionView::Report(m@, *shutdown),
            ActorAction::OpenConnection(a) => ActorActionView::OpenConnection(a@),
            ActorAction::WriteFrame(f) => ActorActionView::WriteFrame(f@),
            ActorAction::SendPingFrame => ActorActionView::SendPingFrame,
            ActorAction::SendCloseFrame => ActorActionView::SendCloseFrame,
            ActorAction::StartCloseReplyTimer => ActorActionView::StartCloseReplyTimer,
            ActorAction::UncountReadFrame => ActorActionView::UncountReadFrame,
            ActorAction::Shutdown => ActorActionView::Shutdown,
            ActorAction::DropConnection => ActorActionView::DropConnection,
        }
    }
}

/// The exit reason that a failed report stands for.
pub open spec fn actor_action_failure(action: ActorActionView) -> Option<ConnectedLoopExitReason> {
    match action {
        ActorActionView::Report(_, _) => Some(ConnectedLoopExitReason::ActorIOClientDisconnected),
        _ => None,
    }
}

impl ActorAction {
    pub fn failure_reason(&self) -> (reason: Option<ConnectedLoopExitReason>)
        ensures
            reason == actor_action_failure(self@),
    {
        match self {
            ActorAction::Report(_, _) => Some(ConnectedLoopExitReason::ActorIOClientDisconnected),
            _ => None,
        }
    }
}

pub open spec fn actor_actions_view(actions: Seq<ActorAction>) -> Seq<ActorActionView> {
    actions.map_values(|a: ActorAction| a@)
}

pub open spec fn say(kind: ClientMessageKind, text: Seq<char>, shutdown: bool) -> ActorActionView {
    ActorActionView::Report(ReadFrameInputView::ClientMessage(ClientMessageView { kind, text }), shutdown)
}

pub open spec fn at(phase: ActorPhaseView, url: Option<Seq<char>>) -> ActorMachineView {
    ActorMachineView { phase, url }
}

/// A request to connect to `url_text` from a machine without a connection:
/// an empty address is refused, any other is connected to as it stands.
pub open spec fn prepare_connect(url_text: Seq<char>, url: Option<Seq<char>>) -> (
    ActorMachineView,
    Seq<ActorActionView>,
) {
    if url_text.len() == 0 {
        (
            at(ActorPhaseView::NotConnected, url),
            seq![say(ClientMessageKind::ConnectionFailed, ERROR_EMPTY_URL_PROVIDED@, false)],
        )
    } else {
        (
            at(ActorPhaseView::Connecting(url_text), url),
            seq![ActorActionView::OpenConnection(url_text)],
        )
    }
}

/// The end of a disconnection: the connection is shut down, the address is
/// forgotten and the disconnection reported; then the machine waits again or
/// connects elsewhere.
pub open spec fn finish_disconnect(then: AfterDisconnectView) -> (
    ActorMachineView,
    Seq<ActorActionView>,
) {
    let done = seq![
        ActorActionView::Shutdown,
        say(ClientMessageKind::Disconnected, SERVER_DISCONNECTED@, false),
    ];
    match then {
        AfterDisconnectView::Finish => (at(ActorPhaseView::NotConnected, None), done),
        AfterDisconnectView::ConnectTo(url_text) => {
            let (m, actions) = prepare_connect(url_text, None);
            (m, done + actions)
        },
    }
}

/// After a connection error: the error is reported, then the connection is
/// shut down, the address forgotten and the forced disconnection reported.
pub open spec fn connection_error(text: Seq<char>) -> (ActorMachineView, Seq<ActorActionView>) {
    (
        at(ActorPhaseView::NotConnected, None),
        seq![
            say(ClientMessageKind::ConnectionFailed, text, false),
            ActorActionView::Shutdown,
            say(ClientMessageKind::Disconnected, SERVER_DISCONNECTION_FORCED@, false),
        ],
    )
}

/// A frame read while connected: a close frame starts the disconnection (its
/// count taken back), a ping or pong is reported and ends the connected loop
/// (the connection is dropped), any other frame goes down the pipeline.
pub open spec fn connected_frame(frame: OwnedFrameView, url: Option<Seq<char>>) -> (
    ActorMachineView,
    Seq<ActorActionView>,
) {
    if frame.opcode == OpCode::Close {
        (
            at(ActorPhaseView::SendingClose(true, AfterDisconnectView::Finish), url),
            seq![ActorActionView::UncountReadFrame, ActorActionView::SendCloseFrame],
        )
    } else if frame.opcode == OpCode::Ping {
        (
            at(ActorPhaseView::NotConnected, url),
            seq![
                say(ClientMessageKind::PingReceived, PING_RECEIVED@, false),
                ActorActionView::DropConnection,
            ],
        )
    } else if frame.opcode == OpCode::Pong {
        (
            at(ActorPhaseView::NotConnected, url),
            seq![
                say(ClientMessageKind::PingReceived, PONG_RECEIVED@, false),
                ActorActionView::DropConnection,
            ],
        )
    } else {
        (
            at(ActorPhaseView::Connected, url),
            seq![ActorActionView::Report(ReadFrameInputView::Frame(frame), false)],
        )
    }
}

/// A request of the user interface while connected.
pub open spec fn connected_request(request: InputView, url: Option<Seq<char>>) -> (
    ActorMachineView,
    Seq<ActorActionView>,
) {
    match request {
        InputView::ConnectTo(url_text) => (
            at(ActorPhaseView::SendingClose(false, AfterDisconnectView::ConnectTo(url_text)), url),
            seq![ActorActionView::SendCloseFrame],
        ),
        InputView::Disconnect => (
            at(ActorPhaseView::SendingClose(false, AfterDisconnectView::Finish), url),
            seq![ActorActionView::SendCloseFrame],
        ),
        InputView::WriteFrame(frame) => (
            at(ActorPhaseView::Writing, url),
            seq![ActorActionView::WriteFrame(frame)],
        ),
        InputView::SendPing => (
            at(ActorPhaseView::SendingPing, url),
            seq![ActorActionView::SendPingFrame],
        ),
    }
}

/// A frame read while waiting for the reply to the close frame.
pub open spec fn close_reply_frame(
    frame: OwnedFrameView,
    then: AfterDisconnectView,
    url: Option<Seq<char>>,
) -> (ActorMachineView, Seq<ActorActionView>) {
    let waiting = at(ActorPhaseView::AwaitingCloseReply(then), url);
    if frame.opcode == OpCode::Close {
        let (m, rest) = finish_disconnect(then);
        (m, seq![ActorActionView::UncountReadFrame] + rest)
    } else if frame.opcode == OpCode::Ping {
        (waiting, seq![say(ClientMessageKind::PingReceived, PING_RECEIVED@, true)])
    } else if frame.opcode == OpCode::Pong {
        (waiting, seq![say(ClientMessageKind::PingReceived, PONG_RECEIVED@, true)])
    } else {
        (waiting, seq![ActorActionView::Report(ReadFrameInputView::Frame(frame), true)])
    }
}

/// One step of the actor: its next state and the actions to perform, in
/// order. An event the current phase does not wait for changes nothing.
pub open spec fn actor_step(m: ActorMachineView, e: ActorEventView) -> (
    ActorMachineView,
    Seq<ActorActionView>,
) {
    let unchanged = (m, Seq::<ActorActionView>::empty());
    match m.phase {
        ActorPhaseView::NotConnected => match e {
            ActorEventView::Input(None) => (at(ActorPhaseView::Stopped, m.url), Seq::empty()),
            ActorEventView::Input(Some(InputView::ConnectTo(url_text))) => prepare_connect(
                url_text,
                m.url,
            ),
            ActorEventView::Input(Some(_)) => (
                m,
                seq![say(ClientMessageKind::NotConnected, ERROR_NO_SERVER_CONNECTED@, false)],
            ),
            _ => unchanged,
        },
        ActorPhaseView::Connecting(url_text) => match e {
            ActorEventView::ConnectOutcome(Ok(())) => (
                at(ActorPhaseView::Connected, Some(url_text)),
                seq![say(ClientMessageKind::ConnectionSucceed, CONNECTION_SUCCEEDED@, false)],
            ),
            ActorEventView::ConnectOutcome(Err(text)) => (
                at(ActorPhaseView::NotConnected, m.url),
                seq![say(ClientMessageKind::ConnectionFailed, text, false)],
            ),
            _ => unchanged,
        },
        ActorPhaseView::Connected => match e {
            ActorEventView::Input(None) => (at(ActorPhaseView::Stopped, m.url), Seq::empty()),
            ActorEventView::Input(Some(request)) => connected_request(request, m.url),
            ActorEventView::ReadOutcome(Ok(frame)) => connected_frame(frame, m.url),
            ActorEventView::ReadOutcome(Err(text)) => connection_error(text),
            _ => unchanged,
        },
        ActorPhaseView::Writing => match e {
            ActorEventView::WriteOutcome(Ok(())) => (at(ActorPhaseView::Connected, m.url), Seq::empty()),
            ActorEventView::WriteOutcome(Err(text)) => connection_error(text),
            _ => unchanged,
        },
        ActorPhaseView::SendingPing => match e {
            ActorEventView::PingOutcome(Ok(())) => (
                at(ActorPhaseView::NotConnected, m.url),
                seq![
                    say(ClientMessageKind::PingReceived, PING_SENT@, false),
                    ActorActionView::DropConnection,
                ],
            ),
            ActorEventView::PingOutcome(Err(text)) => (
                at(ActorPhaseView::NotConnected, m.url),
                seq![
                    say(ClientMessageKind::ConnectionFailed, text, false),
                    ActorActionView::DropConnection,
                ],
            ),
            _ => unchanged,
        },
        ActorPhaseView::SendingClose(received_close_frame, then) => match e {
            ActorEventView::CloseFrameOutcome(outcome) => {
                let sent = match outcome {
                    Err(text) => seq![say(ClientMessageKind::ConnectionFailed, text, true)],
                    Ok(()) => seq![say(ClientMessageKind::Disconnecting, CLOSE_FRAME_SENT@, true)],
                };
                if received_close_frame {
                    let (next, rest) = finish_disconnect(then);
                    (next, sent + rest)
                } else {
                    (
                        at(ActorPhaseView::AwaitingCloseReply(then), m.url),
                        sent + seq![ActorActionView::StartCloseReplyTimer],
                    )
                }
            },
            _ => unchanged,
        },
        ActorPhaseView::AwaitingCloseReply(then) => match e {
            ActorEventView::ReadOutcome(Ok(frame)) => close_reply_frame(frame, then, m.url),
            ActorEventView::ReadOutcome(Err(text)) => (
                m,
                seq![say(ClientMessageKind::ConnectionFailed, text, true)],
            ),
            ActorEventView::CloseReplyTimedOut => {
                let (next, rest) = finish_disconnect(then);
                (
                    next,
                    seq![
                        say(ClientMessageKind::Disconnected, TIME_ELAPSED_FORCED_CLOSURE_NOTICE@, true),
                    ] + rest,
                )
            },
            _ => unchanged,
        },
        ActorPhaseView::Stopped => unchanged,
    }
}


fn no_actions() -> (actions: Vec<ActorAction>)
    ensures
        actor_actions_view(actions@) == Seq::<ActorActionView>::empty(),
{
    let actions: Vec<ActorAction> = Vec::new();
    assert(actor_actions_view(actions@) =~= Seq::empty());
    actions
}

fn push(actions: &mut Vec<ActorAction>, action: ActorAction)
    ensures
        actor_actions_view(final(actions)@) == actor_actions_view(old(actions)@).push(action@),
{
    actions.push(action);
    assert(actor_actions_view(actions@) =~= actor_actions_view(old(actions)@).push(action@));
}

fn one(action: ActorAction) -> (actions: Vec<ActorAction>)
    ensures
        actor_actions_view(actions@) == seq![action@],
{
    let mut actions = no_actions();
    push(&mut actions, action);
    assert(actor_actions_view(actions@) =~= seq![action@]);
    actions
}

fn two(first: ActorAction, second: ActorAction) -> (actions: Vec<ActorAction>)
    ensures
        actor_actions_view(actions@) == seq![first@, second@],
{
    let mut actions = one(first);
    push(&mut actions, second);
    assert(actor_actions_view(actions@) =~= seq![first@, second@]);
    actions
}

fn extend(actions: &mut Vec<ActorAction>, mut more: Vec<ActorAction>)
    ensures
        actor_actions_view(final(actions)@) == actor_actions_view(old(actions)@) + actor_actions_view(
            more@,
        ),
{
    let ghost first = actor_actions_view(actions@);
    let ghost second = actor_actions_view(more@);
    actions.append(&mut more);
    assert(actor_actions_view(actions@) =~= first + second);
}

fn say_str(kind: ClientMessageKind, text: &'static str, shutdown: bool) -> (action: ActorAction)
    ensures
        action@ == say(kind, text@, shutdown),
{
    ActorAction::Report(
        ReadFrameProcessorActorInputMessage::ClientMessage(
            WebSocketActorOutputClientMessage::from_parts(kind, SendableText::Str(text)),
        ),
        shutdown,
    )
}

fn say_string(kind: ClientMessageKind, text: String, shutdown: bool) -> (action: ActorAction)
    ensures
        action@ == say(kind, text@, shutdown),
{
    ActorAction::Report(
        ReadFrameProcessorActorInputMessage::ClientMessage(
            WebSocketActorOutputClientMessage::from_parts(kind, SendableText::String(text)),
        ),
        shutdown,
    )
}

impl WebSocketActorMachine {
    /// A machine that is not connected and has no address.
    pub fn new() -> (m: Self)
        ensures
            m@ == at(ActorPhaseView::NotConnected, None),
    {
        WebSocketActorMachine { phase: ActorPhase::NotConnected, url: None }
    }

    /// Whether the actor has ended.
    pub fn is_stopped(&self) -> (stopped: bool)
        ensures
            stopped == (self@.phase is Stopped),
    {
        match self.phase {
            ActorPhase::Stopped => true,
            _ => false,
        }
    }

    fn prepare(url_text: String, url: Option<String>) -> (next: (Self, Vec<ActorAction>))
        ensures
            (next.0@, actor_actions_view(next.1@)) == prepare_connect(url_text@, option_string_view(url)),
    {
        if url_text.as_str().is_empty() {
            let actions = one(say_str(ClientMessageKind::ConnectionFailed, ERROR_EMPTY_URL_PROVIDED, false));
            (WebSocketActorMachine { phase: ActorPhase::NotConnected, url }, actions)
        } else {
            let actions = one(ActorAction::OpenConnection(url_text.clone()));
            (WebSocketActorMachine { phase: ActorPhase::Connecting(url_text), url }, actions)
        }
    }

    fn finish(then: AfterDisconnect) -> (next: (Self, Vec<ActorAction>))
        ensures
            (next.0@, actor_actions_view(next.1@)) == finish_disconnect(then@),
    {
        let mut actions = two(
            ActorAction::Shutdown,
            say_str(ClientMessageKind::Disconnected, SERVER_DISCONNECTED, false),
        );
        match then {
            AfterDisconnect::Finish => (WebSocketActorMachine { phase: ActorPhase::NotConnected, url: None }, actions),
            AfterDisconnect::ConnectTo(url_text) => {
                let (m, more) = Self::prepare(url_text, None);
                extend(&mut actions, more);
                (m, actions)
            },
        }
    }

    fn connection_error(text: String) -> (next: (Self, Vec<ActorAction>))
        ensures
            (next.0@, actor_actions_view(next.1@)) == connection_error(text@),
    {
        let mut actions = two(
            say_string(ClientMessageKind::ConnectionFailed, text, false),
            ActorAction::Shutdown,
        );
        push(&mut actions, say_str(ClientMessageKind::Disconnected, SERVER_DISCONNECTION_FORCED, false));
        assert(actor_actions_view(actions@) =~= connection_error(text@).1);
        (WebSocketActorMachine { phase: ActorPhase::NotConnected, url: None }, actions)
    }

    fn connected_frame(frame: OwnedFrame, url: Option<String>) -> (next: (Self, Vec<ActorAction>))
        ensures
            (next.0@, actor_actions_view(next.1@)) == connected_frame(frame@, option_string_view(url)),
    {
        match frame.opcode {
            OpCode::Close => {
                let actions = two(ActorAction::UncountReadFrame, ActorAction::SendCloseFrame);
                (
                    WebSocketActorMachine {
                        phase: ActorPhase::SendingClose(true, AfterDisconnect::Finish),
                        url,
                    },
                    actions,
                )
            },
            OpCode::Ping => {
                let actions = two(
                    say_str(ClientMessageKind::PingReceived, PING_RECEIVED, false),
                    ActorAction::DropConnection,
                );
                (WebSocketActorMachine { phase: ActorPhase::NotConnected, url }, actions)
            },
            OpCode::Pong => {
                let actions = two(
                    say_str(ClientMessageKind::PingReceived, PONG_RECEIVED, false),
                    ActorAction::DropConnection,
                );
                (WebSocketActorMachine { phase: ActorPhase::NotConnected, url }, actions)
            },
            _ => {
                let actions = one(
                    ActorAction::Report(ReadFrameProcessorActorInputMessage::Frame(frame), false),
                );
                (WebSocketActorMachine { phase: ActorPhase::Connected, url }, actions)
            },
        }
    }

    fn connected_request(request: WebSocketActorInputMessage, url: Option<String>) -> (next: (
        Self,
        Vec<ActorAction>,
    ))
        ensures
            (next.0@, actor_actions_view(next.1@)) == connected_request(
                request@,
                option_string_view(url),
            ),
    {
        match request {
            WebSocketActorInputMessage::ConnectTo(url_text) => {
                let actions = one(ActorAction::SendCloseFrame);
                (
                    WebSocketActorMachine {
                        phase: ActorPhase::SendingClose(false, AfterDisconnect::ConnectTo(url_text)),
                        url,
                    },
                    actions,
                )
            },
            WebSocketActorInputMessage::Disconnect => {
                let actions = one(ActorAction::SendCloseFrame);
                (
                    WebSocketActorMachine {
                        phase: ActorPhase::SendingClose(false, AfterDisconnect::Finish),
                        url,
                    },
                    actions,
                )
            },
            WebSocketActorInputMessage::WriteFrame(frame) => {
                let actions = one(ActorAction::WriteFrame(frame));
                (WebSocketActorMachine { phase: ActorPhase::Writing, url }, actions)
            },
            WebSocketActorInputMessage::SendPing => {
                let actions = one(ActorAction::SendPingFrame);
                (WebSocketActorMachine { phase: ActorPhase::SendingPing, url }, actions)
            },
        }
    }

    fn close_reply_frame(frame: OwnedFrame, then: AfterDisconnect, url: Option<String>) -> (next: (
        Self,
        Vec<ActorAction>,
    ))
        ensures
            (next.0@, actor_actions_view(next.1@)) == close_reply_frame(
                frame@,
                then@,
                option_string_view(url),
            ),
    {
        match frame.opcode {
            OpCode::Close => {
                let mut actions = one(ActorAction::UncountReadFrame);
                let (m, rest) = Self::finish(then);
                extend(&mut actions, rest);
                (m, actions)
            },
            OpCode::Ping => {
                let actions = one(say_str(ClientMessageKind::PingReceived, PING_RECEIVED, true));
                (WebSocketActorMachine { phase: ActorPhase::AwaitingCloseReply(then), url }, actions)
            },
            OpCode::Pong => {
                let actions = one(say_str(ClientMessageKind::PingReceived, PONG_RECEIVED, true));
                (WebSocketActorMachine { phase: ActorPhase::AwaitingCloseReply(then), url }, actions)
            },
            _ => {
                let actions = one(
                    ActorAction::Report(ReadFrameProcessorActorInputMessage::Frame(frame), true),
                );
                (WebSocketActorMachine { phase: ActorPhase::AwaitingCloseReply(then), url }, actions)
            },
        }
    }

    /// One step of the actor.
    pub fn step(self, event: ActorEvent) -> (next: (Self, Vec<ActorAction>))
        ensures
            (next.0@, actor_actions_view(next.1@)) == actor_step(self@, event@),
    {
        let WebSocketActorMachine { phase, url } = self;
        match phase {
            ActorPhase::NotConnected => match event {
                ActorEvent::Input(None) => (
                    WebSocketActorMachine { phase: ActorPhase::Stopped, url },
                    no_actions(),
                ),
                ActorEvent::Input(Some(WebSocketActorInputMessage::ConnectTo(url_text))) => {
                    Self::prepare(url_text, url)
                },
                ActorEvent::Input(Some(_)) => {
                    let actions = one(
                        say_str(ClientMessageKind::NotConnected, ERROR_NO_SERVER_CONNECTED, false),
                    );
                    (WebSocketActorMachine { phase: ActorPhase::NotConnected, url }, actions)
                },
                _ => (WebSocketActorMachine { phase: ActorPhase::NotConnected, url }, no_actions()),
            },
            ActorPhase::Connecting(url_text) => match event {
                ActorEvent::ConnectOutcome(Ok(())) => {
                    let actions = one(
                        say_str(ClientMessageKind::ConnectionSucceed, CONNECTION_SUCCEEDED, false),
                    );
                    (WebSocketActorMachine { phase: ActorPhase::Connected, url: Some(url_text) }, actions)
                },
                ActorEvent::ConnectOutcome(Err(text)) => {
                    let actions = one(say_string(ClientMessageKind::ConnectionFailed, text, false));
                    (WebSocketActorMachine { phase: ActorPhase::NotConnected, url }, actions)
                },
                _ => (
                    WebSocketActorMachine { phase: ActorPhase::Connecting(url_text), url },
                    no_actions(),
                ),
            },
            ActorPhase::Connected => match event {
                ActorEvent::Input(None) => (
                    WebSocketActorMachine { phase: ActorPhase::Stopped, url },
                    no_actions(),
                ),
                ActorEvent::Input(Some(request)) => Self::connected_request(request, url),
                ActorEvent::ReadOutcome(Ok(frame)) => Self::connected_frame(frame, url),
                ActorEvent::ReadOutcome(Err(text)) => Self::connection_error(text),
                _ => (WebSocketActorMachine { phase: ActorPhase::Connected, url }, no_actions()),
            },
            ActorPhase::Writing => match event {
                ActorEvent::WriteOutcome(Ok(())) => (
                    WebSocketActorMachine { phase: ActorPhase::Connected, url },
                    no_actions(),
                ),
                ActorEvent::WriteOutcome(Err(text)) => Self::connection_error(text),
                _ => (WebSocketActorMachine { phase: ActorPhase::Writing, url }, no_actions()),
            },
            ActorPhase::SendingPing => match event {
                ActorEvent::PingOutcome(Ok(())) => {
                    let actions = two(
                        say_str(ClientMessageKind::PingReceived, PING_SENT, false),
                        ActorAction::DropConnection,
                    );
                    (WebSocketActorMachine { phase: ActorPhase::NotConnected, url }, actions)
                },
                ActorEvent::PingOutcome(Err(text)) => {
                    let actions = two(
                        say_string(ClientMessageKind::ConnectionFailed, text, false),
                        ActorAction::DropConnection,
                    );
                    (WebSocketActorMachine { phase: ActorPhase::NotConnected, url }, actions)
                },
                _ => (WebSocketActorMachine { phase: ActorPhase::SendingPing, url }, no_actions()),
            },
            ActorPhase::SendingClose(received_close_frame, then) => match event {
                ActorEvent::CloseFrameOutcome(outcome) => {
                    let mut actions = match outcome {
                        Err(text) => one(say_string(ClientMessageKind::ConnectionFailed, text, true)),
                        Ok(()) => one(say_str(ClientMessageKind::Disconnecting, CLOSE_FRAME_SENT, true)),
                    };
                    if received_close_frame {
                        let (m, rest) = Self::finish(then);
                        extend(&mut actions, rest);
                        (m, actions)
                    } else {
                        push(&mut actions, ActorAction::StartCloseReplyTimer);
                        (
                            WebSocketActorMachine { phase: ActorPhase::AwaitingCloseReply(then), url },
                            actions,
                        )
                    }
                },
                _ => (
                    WebSocketActorMachine {
                        phase: ActorPhase::SendingClose(received_close_frame, then),
                        url,
                    },
                    no_actions(),
                ),
            },
            ActorPhase::AwaitingCloseReply(then) => match event {
                ActorEvent::ReadOutcome(Ok(frame)) => Self::close_reply_frame(frame, then, url),
                ActorEvent::ReadOutcome(Err(text)) => {
                    let actions = one(say_string(ClientMessageKind::ConnectionFailed, text, true));
                    (WebSocketActorMachine { phase: ActorPhase::AwaitingCloseReply(then), url }, actions)
                },
                ActorEvent::CloseReplyTimedOut => {
                    let mut actions = one(
                        say_str(ClientMessageKind::Disconnected, TIME_ELAPSED_FORCED_CLOSURE_NOTICE, true),
                    );
                    let (m, rest) = Self::finish(then);
                    extend(&mut actions, rest);
                    (m, actions)
                },
                _ => (
                    WebSocketActorMachine { phase: ActorPhase::AwaitingCloseReply(then), url },
                    no_actions(),
                ),
            },
            ActorPhase::Stopped => (WebSocketActorMachine { phase: ActorPhase::Stopped, url }, no_actions()),
        }
    }
}


/// Whether an action sends a read frame down the pipeline.
pub open spec fn sends_frame(action: ActorActionView) -> bool {
    action matches ActorActionView::Report(ReadFrameInputView::Frame(_), _)
}

/// Every frame the actor reads is counted into the read pipeline as it is read.
/// A data or close frame read while connected, or while waiting for the reply
/// to a close frame, is then either sent down the pipeline or has its count
/// taken back, one of the two and only once, as the first action of the step.
pub proof fn lemma_read_frame_counted_once(m: ActorMachineView, frame: OwnedFrameView)
    requires
        m.phase is Connected || m.phase is AwaitingCloseReply,
        frame.opcode != OpCode::Ping,
        frame.opcode != OpCode::Pong,
    ensures
        ({
            let actions = actor_step(m, ActorEventView::ReadOutcome(Ok(frame))).1;
            &&& actions.len() >= 1
            &&& (frame.opcode == OpCode::Close ==> actions[0] == ActorActionView::UncountReadFrame)
            &&& (frame.opcode != OpCode::Close ==> actions[0] == ActorActionView::Report(
                ReadFrameInputView::Frame(frame),
                m.phase is AwaitingCloseReply,
            ))
            &&& forall|i: int|
                1 <= i < actions.len() ==> !sends_frame(#[trigger] actions[i]) && actions[i]
                    != ActorActionView::UncountReadFrame
        }),
{
    let actions = actor_step(m, ActorEventView::ReadOutcome(Ok(frame))).1;
    if frame.opcode == OpCode::Close && m.phase is AwaitingCloseReply {
        let then = m.phase->AwaitingCloseReply_0;
        match then {
            AfterDisconnectView::Finish => {},
            AfterDisconnectView::ConnectTo(url_text) => {
                let rest = finish_disconnect(then).1;
                assert forall|i: int| 1 <= i < actions.len() implies !sends_frame(
                    #[trigger] actions[i],
                ) && actions[i] != ActorActionView::UncountReadFrame by {
                    assert(actions[i] == rest[i - 1]);
                }
            },
        }
    }
}

/// Whether every report in `actions` that does not shut the connection down
/// when it cannot be sent comes after the connection was shut down.
pub open spec fn reports_guarded_by_shutdown(actions: Seq<ActorActionView>) -> bool {
    forall|i: int|
        #![trigger actions[i]]
        0 <= i < actions.len() && (actions[i] matches ActorActionView::Report(_, false)) ==> exists|
            j: int,
        |
            0 <= j < i && #[trigger] actions[j] == ActorActionView::Shutdown
}

/// The actor's disconnection shuts the connection down on every path: while
/// it sends its close frame or waits for the reply, every report it makes
/// either shuts the connection down should it fail, or comes after the
/// connection was shut down; and a step that ends the disconnection shuts the
/// connection down.
pub proof fn lemma_disconnection_shuts_down(m: ActorMachineView, e: ActorEventView)
    requires
        m.phase is SendingClose || m.phase is AwaitingCloseReply,
    ensures
        reports_guarded_by_shutdown(actor_step(m, e).1),
        !(actor_step(m, e).0.phase is SendingClose || actor_step(m, e).0.phase is AwaitingCloseReply)
            ==> actor_step(m, e).1.contains(ActorActionView::Shutdown),
{
    let (next, actions) = actor_step(m, e);
    let then = match m.phase {
        ActorPhaseView::SendingClose(_, t) => t,
        ActorPhaseView::AwaitingCloseReply(t) => t,
        _ => AfterDisconnectView::Finish,
    };
    let rest = finish_disconnect(then).1;
    assert(rest[0] == ActorActionView::Shutdown);
    assert forall|i: int|
        #![trigger actions[i]]
        0 <= i < actions.len() && (actions[i] matches ActorActionView::Report(_, false)) implies exists|
            j: int,
        |
            0 <= j < i && #[trigger] actions[j] == ActorActionView::Shutdown by {
        if actions.len() > rest.len() && actions.subrange(actions.len() - rest.len(), actions.len() as int) =~= rest {
            let k = actions.len() - rest.len();
            assert(actions[k] == ActorActionView::Shutdown);
        }
    }
    if !(next.phase is SendingClose || next.phase is AwaitingCloseReply) && actions.len() > 0 {
        let k = actions.len() - rest.len();
        assert(actions[k] == ActorActionView::Shutdown);
    }
}

/// When no reply to the close frame comes in time, the actor reports the
/// forced closure once and ends the disconnection: the connection is shut
/// down, the address forgotten and the disconnection reported, and the actor
/// waits again or connects to the address it was asked for.
pub proof fn lemma_close_reply_timeout_disconnects(then: AfterDisconnectView, url: Option<Seq<char>>)
    ensures
        actor_step(at(ActorPhaseView::AwaitingCloseReply(then), url), ActorEventView::CloseReplyTimedOut)
            == (
            finish_disconnect(then).0,
            seq![say(ClientMessageKind::Disconnected, TIME_ELAPSED_FORCED_CLOSURE_NOTICE@, true)]
                + finish_disconnect(then).1,
        ),
        finish_disconnect(then).1[0] == ActorActionView::Shutdown,
        finish_disconnect(then).0.url is None,
        !(finish_disconnect(then).0.phase is AwaitingCloseReply),
{
}

/// The phases in which the actor holds a connection.
pub open spec fn holds_connection(phase: ActorPhaseView) -> bool {
    phase is Connected || phase is Writing || phase is SendingPing || phase is SendingClose
        || phase is AwaitingCloseReply
}

/// Whenever the actor holds a connection it knows the address it connected
/// to; every step keeps this so.
pub proof fn lemma_connection_has_address(m: ActorMachineView, e: ActorEventView)
    requires
        holds_connection(m.phase) ==> m.url is Some,
    ensures
        holds_connection(actor_step(m, e).0.phase) ==> actor_step(m, e).0.url is Some,
{
}

/// While not connected, every request but a connection request is refused
/// with the "no server connected" report, and nothing else changes.
pub proof fn lemma_not_connected_refuses(url: Option<Seq<char>>, request: InputView)
    requires
        !(request is ConnectTo),
    ensures
        actor_step(at(ActorPhaseView::NotConnected, url), ActorEventView::Input(Some(request))) == (
            at(ActorPhaseView::NotConnected, url),
            seq![say(ClientMessageKind::NotConnected, ERROR_NO_SERVER_CONNECTED@, false)],
        ),
{
}

/// Once stopped, the actor stays stopped and does nothing more.
pub proof fn lemma_stop_is_final(m: ActorMachineView, e: ActorEventView)
    requires
        m.phase is Stopped,
    ensures
        actor_step(m, e) == (m, Seq::<ActorActionView>::empty()),
{
}

/// A report that cannot be sent always ends the actor.
pub proof fn lemma_report_failure_stops(action: ActorActionView)
    ensures
        match actor_action_failure(action) {
            Some(reason) => !spec_continue_or_not(Some(reason)),
            None => true,
        },
{
}

/// Every disconnection that completes forgets the address and reports that
/// the server disconnected, after shutting the connection down.
pub proof fn lemma_disconnection_reported(then: AfterDisconnectView)
    ensures
        finish_disconnect(then).1.len() >= 2,
        finish_disconnect(then).1[0] == ActorActionView::Shutdown,
        finish_disconnect(then).1[1] == say(ClientMessageKind::Disconnected, SERVER_DISCONNECTED@, false),
        finish_disconnect(then).0.url is None,
{
}


/// The report of the given kind and text, as the pipeline receives it, with
/// the connection kept or shut down should it fail as `shutdown` says.
pub open spec fn client_report(kind: ClientMessageKind, text: Seq<char>, shutdown: bool) -> ActorActionView {
    ActorActionView::Report(ReadFrameInputView::ClientMessage(ClientMessageView { kind, text }), shutdown)
}

/// A data frame (text, binary or continuation) read while connected goes down
/// the read pipeline as it is, and that is all: the actor stays connected to
/// the same address, ready for the next frame or request.
pub proof fn lemma_data_frame_keeps_connection(url: Option<Seq<char>>, frame: OwnedFrameView)
    requires
        frame.opcode == OpCode::Text || frame.opcode == OpCode::Binary || frame.opcode
            == OpCode::Continuation,
    ensures
        actor_step(
            ActorMachineView { phase: ActorPhaseView::Connected, url },
            ActorEventView::ReadOutcome(Ok(frame)),
        ) == (
            ActorMachineView { phase: ActorPhaseView::Connected, url },
            seq![ActorActionView::Report(ReadFrameInputView::Frame(frame), false)],
        ),
{
}

/// A close frame read while connected starts the close handshake from the
/// server's side: its count is taken back and a close frame is sent.
pub proof fn lemma_server_close_starts_handshake(url: Option<Seq<char>>, frame: OwnedFrameView)
    requires
        frame.opcode == OpCode::Close,
    ensures
        actor_step(
            ActorMachineView { phase: ActorPhaseView::Connected, url },
            ActorEventView::ReadOutcome(Ok(frame)),
        ) == (
            ActorMachineView {
                phase: ActorPhaseView::SendingClose(true, AfterDisconnectView::Finish),
                url,
            },
            seq![ActorActionView::UncountReadFrame, ActorActionView::SendCloseFrame],
        ),
{
}

/// A connected actor takes the user interface's requests: a frame is written,
/// a ping is sent, and a disconnection or a connection elsewhere starts the
/// close handshake; the address is kept. After a successful write the actor is
/// connected again with nothing more to do.
pub proof fn lemma_connected_actor_takes_requests(
    url: Option<Seq<char>>,
    frame: OwnedFrameView,
    url_text: Seq<char>,
)
    ensures
        actor_step(
            ActorMachineView { phase: ActorPhaseView::Connected, url },
            ActorEventView::Input(Some(InputView::WriteFrame(frame))),
        ) == (
            ActorMachineView { phase: ActorPhaseView::Writing, url },
            seq![ActorActionView::WriteFrame(frame)],
        ),
        actor_step(
            ActorMachineView { phase: ActorPhaseView::Writing, url },
            ActorEventView::WriteOutcome(Ok(())),
        ) == (ActorMachineView { phase: ActorPhaseView::Connected, url }, Seq::<ActorActionView>::empty()),
        actor_step(
            ActorMachineView { phase: ActorPhaseView::Connected, url },
            ActorEventView::Input(Some(InputView::SendPing)),
        ) == (
            ActorMachineView { phase: ActorPhaseView::SendingPing, url },
            seq![ActorActionView::SendPingFrame],
        ),
        actor_step(
            ActorMachineView { phase: ActorPhaseView::Connected, url },
            ActorEventView::Input(Some(InputView::Disconnect)),
        ) == (
            ActorMachineView {
                phase: ActorPhaseView::SendingClose(false, AfterDisconnectView::Finish),
                url,
            },
            seq![ActorActionView::SendCloseFrame],
        ),
        actor_step(
            ActorMachineView { phase: ActorPhaseView::Connected, url },
            ActorEventView::Input(Some(InputView::ConnectTo(url_text))),
        ) == (
            ActorMachineView {
                phase: ActorPhaseView::SendingClose(false, AfterDisconnectView::ConnectTo(url_text)),
                url,
            },
            seq![ActorActionView::SendCloseFrame],
        ),
{
}

/// A request to connect to a non-empty address from a waiting actor opens a
/// connection to that address as it stands; on success the actor reports it
/// and is connected to that address, and on failure it reports the error and
/// waits again.
pub proof fn lemma_connecting(url: Option<Seq<char>>, url_text: Seq<char>, text: Seq<char>)
    requires
        url_text.len() > 0,
    ensures
        actor_step(
            ActorMachineView { phase: ActorPhaseView::NotConnected, url },
            ActorEventView::Input(Some(InputView::ConnectTo(url_text))),
        ) == (
            ActorMachineView { phase: ActorPhaseView::Connecting(url_text), url },
            seq![ActorActionView::OpenConnection(url_text)],
        ),
        actor_step(
            ActorMachineView { phase: ActorPhaseView::Connecting(url_text), url },
            ActorEventView::ConnectOutcome(Ok(())),
        ) == (
            ActorMachineView { phase: ActorPhaseView::Connected, url: Some(url_text) },
            seq![client_report(ClientMessageKind::ConnectionSucceed, CONNECTION_SUCCEEDED@, false)],
        ),
        actor_step(
            ActorMachineView { phase: ActorPhaseView::Connecting(url_text), url },
            ActorEventView::ConnectOutcome(Err(text)),
        ) == (
            ActorMachineView { phase: ActorPhaseView::NotConnected, url },
            seq![client_report(ClientMessageKind::ConnectionFailed, text, false)],
        ),
{
}


/// The close handshake the user starts: once the close frame is sent the actor
/// reports that it is disconnecting and waits for the server's reply; once the
/// reply (a close frame) comes, the connection is shut down, the address
/// forgotten and the disconnection reported. When the server started the
/// handshake, sending the close frame ends the disconnection at once.
pub proof fn lemma_close_handshake(url: Option<Seq<char>>, reply: OwnedFrameView)
    requires
        reply.opcode == OpCode::Close,
    ensures
        actor_step(
            ActorMachineView {
                phase: ActorPhaseView::SendingClose(false, AfterDisconnectView::Finish),
                url,
            },
            ActorEventView::CloseFrameOutcome(Ok(())),
        ) == (
            ActorMachineView {
                phase: ActorPhaseView::AwaitingCloseReply(AfterDisconnectView::Finish),
                url,
            },
            seq![
                client_report(ClientMessageKind::Disconnecting, CLOSE_FRAME_SENT@, true),
                ActorActionView::StartCloseReplyTimer,
            ],
        ),
        actor_step(
            ActorMachineView {
                phase: ActorPhaseView::AwaitingCloseReply(AfterDisconnectView::Finish),
                url,
            },
            ActorEventView::ReadOutcome(Ok(reply)),
        ) == (
            ActorMachineView { phase: ActorPhaseView::NotConnected, url: None },
            seq![
                ActorActionView::UncountReadFrame,
                ActorActionView::Shutdown,
                client_report(ClientMessageKind::Disconnected, SERVER_DISCONNECTED@, false),
            ],
        ),
        actor_step(
            ActorMachineView {
                phase: ActorPhaseView::SendingClose(true, AfterDisconnectView::Finish),
                url,
            },
            ActorEventView::CloseFrameOutcome(Ok(())),
        ) == (
            ActorMachineView { phase: ActorPhaseView::NotConnected, url: None },
            seq![
                client_report(ClientMessageKind::Disconnecting, CLOSE_FRAME_SENT@, true),
                ActorActionView::Shutdown,
                client_report(ClientMessageKind::Disconnected, SERVER_DISCONNECTED@, false),
            ],
        ),
{
}

/// A read error while connected is reported, then the connection is shut
/// down, the address forgotten and the forced disconnection reported.
pub proof fn lemma_read_error_forces_disconnection(url: Option<Seq<char>>, text: Seq<char>)
    ensures
        actor_step(
            ActorMachineView { phase: ActorPhaseView::Connected, url },
            ActorEventView::ReadOutcome(Err(text)),
        ) == (
            ActorMachineView { phase: ActorPhaseView::NotConnected, url: None },
            seq![
                client_report(ClientMessageKind::ConnectionFailed, text, false),
                ActorActionView::Shutdown,
                client_report(ClientMessageKind::Disconnected, SERVER_DISCONNECTION_FORCED@, false),
            ],
        ),
{
}

/// A waiting actor refuses an empty address with an error and keeps waiting,
/// and a closed user interface ends it.
pub proof fn lemma_waiting_actor(url: Option<Seq<char>>)
    ensures
        actor_step(
            ActorMachineView { phase: ActorPhaseView::NotConnected, url },
            ActorEventView::Input(Some(InputView::ConnectTo(Seq::empty()))),
        ) == (
            ActorMachineView { phase: ActorPhaseView::NotConnected, url },
            seq![client_report(ClientMessageKind::ConnectionFailed, ERROR_EMPTY_URL_PROVIDED@, false)],
        ),
        actor_step(
            ActorMachineView { phase: ActorPhaseView::NotConnected, url },
            ActorEventView::Input(None),
        ) == (ActorMachineView { phase: ActorPhaseView::Stopped, url }, Seq::<ActorActionView>::empty()),
{
}


/// A ping the user asks for is sent as a frame; once it is out the actor
/// reports it and leaves the connected phase, dropping the connection, and a
/// failed ping is reported the same way. A ping or pong read from the server
/// is reported and likewise drops the connection.
pub proof fn lemma_pings_end_the_connected_phase(url: Option<Seq<char>>, text: Seq<char>, frame: OwnedFrameView)
    requires
        frame.opcode == OpCode::Ping || frame.opcode == OpCode::Pong,
    ensures
        actor_step(
            ActorMachineView { phase: ActorPhaseView::SendingPing, url },
            ActorEventView::PingOutcome(Ok(())),
        ) == (
            ActorMachineView { phase: ActorPhaseView::NotConnected, url },
            seq![
                client_report(ClientMessageKind::PingReceived, PING_SENT@, false),
                ActorActionView::DropConnection,
            ],
        ),
        actor_step(
            ActorMachineView { phase: ActorPhaseView::SendingPing, url },
            ActorEventView::PingOutcome(Err(text)),
        ) == (
            ActorMachineView { phase: ActorPhaseView::NotConnected, url },
            seq![
                client_report(ClientMessageKind::ConnectionFailed, text, false),
                ActorActionView::DropConnection,
            ],
        ),
        actor_step(
            ActorMachineView { phase: ActorPhaseView::Connected, url },
            ActorEventView::ReadOutcome(Ok(frame)),
        ) == (
            ActorMachineView { phase: ActorPhaseView::NotConnected, url },
            seq![
                client_report(
                    ClientMessageKind::PingReceived,
                    if frame.opcode == OpCode::Ping {
                        PING_RECEIVED@
                    } else {
                        PONG_RECEIVED@
                    },
                    false,
                ),
                ActorActionView::DropConnection,
            ],
        ),
{
}

/// Only the loss of the user interface's channel stops the actor; a failed
/// connection or a bad request leaves it ready for the next request.
pub proof fn lemma_exit_reasons()
    ensures
        !ConnectedLoopExitReason::ActorIOClientDisconnected.spec_should_continue(),
        ConnectedLoopExitReason::ServerDisconnectedOrConnectionError.spec_should_continue(),
        ConnectedLoopExitReason::InvalidInput.spec_should_continue(),
{
}

} // verus!

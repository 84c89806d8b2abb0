//! The state of a WebSocket tab apart from its widgets: the connection status
//! the tab shows, which of its controls can be used, and the received
//! messages it lists; and how the tab answers its buttons and the pipeline's
//! output.
use vstd::prelude::*;

use crate::actors::web_socket_actor_messages::{
    ReadFrameProcessorActorOutputMessage, WebSocketActorInputMessage,
    WebSocketActorOutputClientMessage,
};

verus! {

/// The most received messages a tab lists; the oldest goes first.
pub const RECEIVED_MESSAGES_LIMIT: usize = 20;

pub const DEFAULT_ADDRESS: &'static str = "http://localhost:3000";

pub const ERROR_NO_ADDRESS: &'static str = "Error: no address provided.";

pub const ERROR_WRITE_FRAME_ACTOR_UNREACHABLE: &'static str =
    "Error: Could not contact WriteFrameProcessorActor.";

/// The connection status a tab shows.
#[derive(Debug, Eq, PartialEq, Copy, Clone, Structural)]
pub enum ConnectionStatus {
    NotConnected,
    Connecting,
    SwappingConnection,
    Connected,
    Disconnecting,
}

impl Default for ConnectionStatus {
    fn default() -> (status: Self)
        ensures
            status == ConnectionStatus::NotConnected,
    {
        ConnectionStatus::NotConnected
    }
}

/// The name of a status, as the tab shows it.
pub open spec fn status_text(status: ConnectionStatus) -> Seq<char> {
    match status {
        ConnectionStatus::NotConnected => "NotConnected"@,
        ConnectionStatus::Connecting => "Connecting"@,
        ConnectionStatus::SwappingConnection => "SwappingConnection"@,
        ConnectionStatus::Connected => "Connected"@,
        ConnectionStatus::Disconnecting => "Disconnecting"@,
    }
}

impl ConnectionStatus {
    pub fn is_not_connected(&self) -> (b: bool)
        ensures
            b == (*self == ConnectionStatus::NotConnected),
    {
        *self == ConnectionStatus::NotConnected
    }

    pub fn is_connecting(&self) -> (b: bool)
        ensures
            b == (*self == ConnectionStatus::Connecting),
    {
        *self == ConnectionStatus::Connecting
    }

    pub fn is_swapping_connection(&self) -> (b: bool)
        ensures
            b == (*self == ConnectionStatus::SwappingConnection),
    {
        *self == ConnectionStatus::SwappingConnection
    }

    pub fn is_connected(&self) -> (b: bool)
        ensures
            b == (*self == ConnectionStatus::Connected),
    {
        *self == ConnectionStatus::Connected
    }

    pub fn is_disconnecting(&self) -> (b: bool)
        ensures
            b == (*self == ConnectionStatus::Disconnecting),
    {
        *self == ConnectionStatus::Disconnecting
    }

    /// The status's name.
    pub fn as_str(&self) -> (text: &'static str)
        ensures
            text@ == status_text(*self),
    {
        match self {
            ConnectionStatus::NotConnected => {
                proof { reveal_strlit("NotConnected"); }
                "NotConnected"
            },
            ConnectionStatus::Connecting => {
                proof { reveal_strlit("Connecting"); }
                "Connecting"
            },
            ConnectionStatus::SwappingConnection => {
                proof { reveal_strlit("SwappingConnection"); }
                "SwappingConnection"
            },
            ConnectionStatus::Connected => {
                proof { reveal_strlit("Connected"); }
                "Connected"
            },
            ConnectionStatus::Disconnecting => {
                proof { reveal_strlit("Disconnecting"); }
                "Disconnecting"
            },
        }
    }

    /// The status's name as an owned string.
    pub fn to_string(&self) -> (text: String)
        ensures
            text@ == status_text(*self),
    {
        String::from_str(self.as_str())
    }
}

/// The tab's mutable state.
pub struct MutState {
    pub connection_status: ConnectionStatus,
}

impl MutState {
    pub fn new() -> (state: Self)
        ensures
            state.connection_status == ConnectionStatus::NotConnected,
    {
        Self { connection_status: ConnectionStatus::NotConnected }
    }
}

/// Which controls of the tab can be used, and the texts of its two read-only
/// fields.
pub struct TabControls {
    pub format_dropdown_sensitive: bool,
    pub connect_sensitive: bool,
    pub disconnect_sensitive: bool,
    pub send_sensitive: bool,
    pub send_ping_sensitive: bool,
    pub connected_address: String,
    pub status_text: String,
    /// Whether the timer that polls the read-frame pipeline is running.
    pub poller_running: bool,
}

/// A WebSocket tab's state: its status, its controls and the messages it
/// lists, newest first.
pub struct WebSocketTabModel {
    pub mut_state: MutState,
    pub controls: TabControls,
    pub received_messages: Vec<String>,
}

pub open spec fn messages_view(messages: Seq<String>) -> Seq<Seq<char>> {
    messages.map_values(|m: String| m@)
}

/// The controls after a change to `status`, from `c`; a change to the status
/// the tab already shows changes nothing. No status makes the disconnect
/// button usable: a new tab starts with it unusable, and the changes only ever
/// make it unusable.
pub open spec fn controls_after(c: TabControls, current: ConnectionStatus, status: ConnectionStatus) -> TabControls {
    if current == status {
        c
    } else {
        let changed = match status {
            ConnectionStatus::NotConnected => TabControls {
                format_dropdown_sensitive: true,
                disconnect_sensitive: false,
                send_sensitive: false,
                connect_sensitive: true,
                send_ping_sensitive: false,
                ..c
            },
            ConnectionStatus::Connecting => TabControls {
                format_dropdown_sensitive: false,
                connect_sensitive: false,
                poller_running: true,
                ..c
            },
            ConnectionStatus::SwappingConnection => TabControls {
                send_sensitive: false,
                connect_sensitive: false,
                send_ping_sensitive: false,
                ..c
            },
            ConnectionStatus::Connected => TabControls {
                send_sensitive: true,
                send_ping_sensitive: true,
                ..c
            },
            ConnectionStatus::Disconnecting => TabControls {
                connect_sensitive: false,
                disconnect_sensitive: false,
                send_sensitive: false,
                send_ping_sensitive: false,
                ..c
            },
        };
        changed
    }
}

/// The text-field part of a status change: the shown status follows the
/// status, and the connected address is cleared when the tab is no longer
/// connected.
pub open spec fn texts_after(
    c: TabControls,
    current: ConnectionStatus,
    status: ConnectionStatus,
) -> (Seq<char>, Seq<char>) {
    if current == status {
        (c.connected_address@, c.status_text@)
    } else if status == ConnectionStatus::NotConnected {
        (Seq::empty(), status_text(status))
    } else {
        (c.connected_address@, status_text(status))
    }
}

/// Whether `after` shows the change from `current` to `status` on the
/// controls `before`: each control as `controls_after` gives it, and the two
/// texts as `texts_after` gives them.
pub open spec fn shows_status(
    before: TabControls,
    current: ConnectionStatus,
    status: ConnectionStatus,
    after: TabControls,
) -> bool {
    let expected = controls_after(before, current, status);
    &&& after.format_dropdown_sensitive == expected.format_dropdown_sensitive
    &&& after.connect_sensitive == expected.connect_sensitive
    &&& after.disconnect_sensitive == expected.disconnect_sensitive
    &&& after.send_sensitive == expected.send_sensitive
    &&& after.send_ping_sensitive == expected.send_ping_sensitive
    &&& after.poller_running == expected.poller_running
    &&& (after.connected_address@, after.status_text@) == texts_after(before, current, status)
}

/// The message list after one message was listed: it goes first, and the
/// oldest message goes once the list holds more than the limit.
pub open spec fn listed_after(messages: Seq<Seq<char>>, message: Seq<char>) -> Seq<Seq<char>> {
    let with_new = seq![message] + messages;
    if RECEIVED_MESSAGES_LIMIT < with_new.len() {
        with_new.drop_last()
    } else {
        with_new
    }
}

/// The status a pipeline output moves the tab to, if any.
pub open spec fn status_for_output(kind: Option<crate::actors::web_socket_actor_messages::ClientMessageKind>) -> Option<ConnectionStatus> {
    match kind {
        Some(crate::actors::web_socket_actor_messages::ClientMessageKind::ConnectionSucceed) => Some(ConnectionStatus::Connected),
        Some(crate::actors::web_socket_actor_messages::ClientMessageKind::ConnectionFailed) => Some(ConnectionStatus::NotConnected),
        Some(crate::actors::web_socket_actor_messages::ClientMessageKind::Disconnected) => Some(ConnectionStatus::NotConnected),
        Some(crate::actors::web_socket_actor_messages::ClientMessageKind::NotConnected) => Some(ConnectionStatus::NotConnected),
        Some(crate::actors::web_socket_actor_messages::ClientMessageKind::Disconnecting) => Some(ConnectionStatus::Disconnecting),
        _ => None,
    }
}

impl WebSocketTabModel {
    /// The state of a new tab: not connected, with only the connect button
    /// and the format choice usable, the default address shown as connected
    /// address, and no messages.
    pub fn new() -> (tab: Self)
        ensures
            tab.mut_state.connection_status == ConnectionStatus::NotConnected,
            tab.controls.format_dropdown_sensitive,
            tab.controls.connect_sensitive,
            !tab.controls.disconnect_sensitive,
            !tab.controls.send_sensitive,
            !tab.controls.send_ping_sensitive,
            tab.controls.connected_address@ == DEFAULT_ADDRESS@,
            tab.controls.status_text@ == status_text(ConnectionStatus::NotConnected),
            !tab.controls.poller_running,
            tab.received_messages@.len() == 0,
    {
        let status = ConnectionStatus::NotConnected;
        WebSocketTabModel {
            mut_state: MutState::new(),
            controls: TabControls {
                format_dropdown_sensitive: true,
                connect_sensitive: true,
                disconnect_sensitive: false,
                send_sensitive: false,
                send_ping_sensitive: false,
                connected_address: String::from_str(DEFAULT_ADDRESS),
                status_text: status.to_string(),
                poller_running: false,
            },
            received_messages: Vec::new(),
        }
    }

    /// Moves the tab to `status`, with the controls that status allows.
    pub fn set_status(&mut self, status: ConnectionStatus)
        ensures
            final(self).mut_state.connection_status == status,
            ({
                let expected = controls_after(old(self).controls, old(self).mut_state.connection_status, status);
                &&& final(self).controls.format_dropdown_sensitive == expected.format_dropdown_sensitive
                &&& final(self).controls.connect_sensitive == expected.connect_sensitive
                &&& final(self).controls.disconnect_sensitive == expected.disconnect_sensitive
                &&& final(self).controls.send_sensitive == expected.send_sensitive
                &&& final(self).controls.send_ping_sensitive == expected.send_ping_sensitive
                &&& final(self).controls.poller_running == expected.poller_running
            }),
            (final(self).controls.connected_address@, final(self).controls.status_text@) == texts_after(
                old(self).controls,
                old(self).mut_state.connection_status,
                status,
            ),
            final(self).received_messages@ == old(self).received_messages@,
    {
        if self.mut_state.connection_status == status {
            return;
        }
        match status {
            ConnectionStatus::NotConnected => {
                self.controls.format_dropdown_sensitive = true;
                self.controls.disconnect_sensitive = false;
                self.controls.send_sensitive = false;
                self.controls.connect_sensitive = true;
                self.controls.send_ping_sensitive = false;
                self.controls.connected_address = String::new();
            },
            ConnectionStatus::Connecting => {
                self.controls.format_dropdown_sensitive = false;
                self.controls.connect_sensitive = false;
                self.controls.poller_running = true;
            },
            ConnectionStatus::SwappingConnection => {
                self.controls.send_sensitive = false;
                self.controls.connect_sensitive = false;
                self.controls.send_ping_sensitive = false;
            },
            ConnectionStatus::Connected => {
                self.controls.send_sensitive = true;
                self.controls.send_ping_sensitive = true;
            },
            ConnectionStatus::Disconnecting => {
                self.controls.connect_sensitive = false;
                self.controls.disconnect_sensitive = false;
                self.controls.send_sensitive = false;
                self.controls.send_ping_sensitive = false;
            },
        }
        self.mut_state.connection_status = status;
        self.controls.status_text = status.to_string();
    }

    /// Lists a message first, dropping the oldest beyond the limit.
    pub fn output_message(&mut self, message: &str)
        ensures
            messages_view(final(self).received_messages@) == listed_after(
                messages_view(old(self).received_messages@),
                message@,
            ),
            final(self).mut_state.connection_status == old(self).mut_state.connection_status,
            final(self).controls == old(self).controls,
    {
        let ghost before = messages_view(self.received_messages@);
        self.received_messages.insert(0, String::from_str(message));
        assert(messages_view(self.received_messages@) =~= seq![message@] + before);
        self.regulate_received_messages();
        assert(messages_view(self.received_messages@) =~= listed_after(before, message@));
    }

    /// Drops the oldest message once the list holds more than the limit.
    fn regulate_received_messages(&mut self)
        ensures
            messages_view(final(self).received_messages@) == (if RECEIVED_MESSAGES_LIMIT
                < old(self).received_messages@.len() {
                messages_view(old(self).received_messages@).drop_last()
            } else {
                messages_view(old(self).received_messages@)
            }),
            final(self).mut_state == old(self).mut_state,
            final(self).controls == old(self).controls,
    {
        if RECEIVED_MESSAGES_LIMIT < self.received_messages.len() {
            let ghost before = self.received_messages@;
            self.received_messages.pop();
            assert(messages_view(self.received_messages@) =~= messages_view(before).drop_last());
        }
    }

    /// The connect button: with an address, the request to connect to it
    /// (the tab then shows it is connecting, or swapping connection when it
    /// was connected); without one, an error listed and nothing else.
    pub fn connect_clicked(&mut self, address: String) -> (request: Option<WebSocketActorInputMessage>)
        ensures
            address@.len() == 0 ==> {
                &&& request is None
                &&& final(self).mut_state == old(self).mut_state
                &&& final(self).controls == old(self).controls
                &&& messages_view(final(self).received_messages@) == listed_after(
                    messages_view(old(self).received_messages@),
                    ERROR_NO_ADDRESS@,
                )
            },
            address@.len() != 0 ==> {
                &&& request == Some(WebSocketActorInputMessage::ConnectTo(address))
                &&& final(self).mut_state.connection_status == (if old(self).mut_state.connection_status
                    == ConnectionStatus::Connected {
                    ConnectionStatus::SwappingConnection
                } else {
                    ConnectionStatus::Connecting
                })
                &&& shows_status(
                    old(self).controls,
                    old(self).mut_state.connection_status,
                    final(self).mut_state.connection_status,
                    final(self).controls,
                )
                &&& final(self).received_messages@ == old(self).received_messages@
            },
    {
        if address.as_str().is_empty() {
            self.output_message(ERROR_NO_ADDRESS);
            return None;
        }
        if self.mut_state.connection_status == ConnectionStatus::Connected {
            self.set_status(ConnectionStatus::SwappingConnection);
        } else {
            self.set_status(ConnectionStatus::Connecting);
        }
        Some(WebSocketActorInputMessage::ConnectTo(address))
    }

    /// The disconnect button: only a connected tab asks the actor anything,
    /// and what it asks for is a connection to the address in the address
    /// field.
    pub fn disconnect_request(&self, address: String) -> (request: Option<WebSocketActorInputMessage>)
        ensures
            request == (if self.mut_state.connection_status == ConnectionStatus::Connected {
                Some(WebSocketActorInputMessage::ConnectTo(address))
            } else {
                None::<WebSocketActorInputMessage>
            }),
    {
        if self.mut_state.connection_status == ConnectionStatus::Connected {
            Some(WebSocketActorInputMessage::ConnectTo(address))
        } else {
            None
        }
    }

    /// After the disconnect button's request: the tab shows it is
    /// disconnecting when the request went out, and lists an error otherwise.
    pub fn disconnect_request_outcome(&mut self, sent: bool)
        ensures
            sent ==> final(self).mut_state.connection_status == ConnectionStatus::Disconnecting,
            sent ==> shows_status(
                old(self).controls,
                old(self).mut_state.connection_status,
                ConnectionStatus::Disconnecting,
                final(self).controls,
            ),
            sent ==> final(self).received_messages@ == old(self).received_messages@,
            !sent ==> final(self).mut_state == old(self).mut_state,
            !sent ==> final(self).controls == old(self).controls,
            !sent ==> messages_view(final(self).received_messages@) == listed_after(
                messages_view(old(self).received_messages@),
                ERROR_WRITE_FRAME_ACTOR_UNREACHABLE@,
            ),
    {
        if sent {
            self.set_status(ConnectionStatus::Disconnecting);
        } else {
            self.output_message(ERROR_WRITE_FRAME_ACTOR_UNREACHABLE);
        }
    }

    /// One output of the read-frame pipeline: its text is listed, and a
    /// report about the connection moves the tab to the status it implies.
    pub fn pipeline_output(&mut self, output: ReadFrameProcessorActorOutputMessage)
        ensures
            messages_view(final(self).received_messages@) == listed_after(
                messages_view(old(self).received_messages@),
                match output {
                    ReadFrameProcessorActorOutputMessage::Processed(text) => text@,
                    ReadFrameProcessorActorOutputMessage::ClientMessage(m) => m@.text,
                },
            ),
            final(self).mut_state.connection_status == match status_for_output(
                match output {
                    ReadFrameProcessorActorOutputMessage::Processed(_) => None,
                    ReadFrameProcessorActorOutputMessage::ClientMessage(m) => Some(m@.kind),
                },
            ) {
                Some(status) => status,
                None => old(self).mut_state.connection_status,
            },
            match status_for_output(
                match output {
                    ReadFrameProcessorActorOutputMessage::Processed(_) => None,
                    ReadFrameProcessorActorOutputMessage::ClientMessage(m) => Some(m@.kind),
                },
            ) {
                Some(status) => shows_status(
                    old(self).controls,
                    old(self).mut_state.connection_status,
                    status,
                    final(self).controls,
                ),
                None => final(self).controls == old(self).controls,
            },
            (output matches ReadFrameProcessorActorOutputMessage::ClientMessage(m) && (m@.kind
                == crate::actors::web_socket_actor_messages::ClientMessageKind::ConnectionFailed
                || m@.kind == crate::actors::web_socket_actor_messages::ClientMessageKind::Disconnected
                || m@.kind == crate::actors::web_socket_actor_messages::ClientMessageKind::NotConnected))
                ==> final(self).mut_state.connection_status == ConnectionStatus::NotConnected,
            (output matches ReadFrameProcessorActorOutputMessage::ClientMessage(m) && m@.kind
                == crate::actors::web_socket_actor_messages::ClientMessageKind::ConnectionSucceed)
                ==> final(self).mut_state.connection_status == ConnectionStatus::Connected,
            (output matches ReadFrameProcessorActorOutputMessage::ClientMessage(m) && m@.kind
                == crate::actors::web_socket_actor_messages::ClientMessageKind::Disconnecting)
                ==> final(self).mut_state.connection_status == ConnectionStatus::Disconnecting,
    {
        match output {
            ReadFrameProcessorActorOutputMessage::Processed(text) => {
                self.output_message(text.as_str());
            },
            ReadFrameProcessorActorOutputMessage::ClientMessage(message) => {
                self.output_message(message.as_str());
                match message {
                    WebSocketActorOutputClientMessage::ConnectionSucceed(_) => {
                        self.set_status(ConnectionStatus::Connected);
                    },
                    WebSocketActorOutputClientMessage::ConnectionFailed(_)
                    | WebSocketActorOutputClientMessage::Disconnected(_)
                    | WebSocketActorOutputClientMessage::NotConnected(_) => {
                        self.set_status(ConnectionStatus::NotConnected);
                    },
                    WebSocketActorOutputClientMessage::Disconnecting(_) => {
                        self.set_status(ConnectionStatus::Disconnecting);
                    },
                    _ => {},
                }
            },
        }
    }

    /// Whether the poller keeps running after a poll: it does after taking an
    /// output, and after finding none only while read frames are still in
    /// the pipeline. When it stops, the model records it.
    pub fn poll_outcome(&mut self, took_output: bool, processing_read_frames: bool) -> (keep: bool)
        ensures
            keep == (took_output || processing_read_frames),
            final(self).controls.poller_running == keep,
            final(self).mut_state == old(self).mut_state,
            final(self).received_messages@ == old(self).received_messages@,
    {
        let keep = took_output || processing_read_frames;
        self.controls.poller_running = keep;
        keep
    }
}


/// The status field always names the status the tab is in: a new tab shows
/// "NotConnected", and each status change shows the new status's name.
pub proof fn lemma_status_text_follows_status(
    c: TabControls,
    current: ConnectionStatus,
    status: ConnectionStatus,
)
    requires
        c.status_text@ == status_text(current),
    ensures
        texts_after(c, current, status).1 == status_text(status),
{
}

/// Changing to a status twice is the same as changing to it once.
pub proof fn lemma_set_status_idempotent(c: TabControls, current: ConnectionStatus, status: ConnectionStatus)
    ensures
        controls_after(controls_after(c, current, status), status, status) == controls_after(
            c,
            current,
            status,
        ),
{
}

/// The list of received messages never holds more than the limit, and the
/// message listed last is always first.
pub proof fn lemma_received_messages_bounded(messages: Seq<Seq<char>>, message: Seq<char>)
    requires
        messages.len() <= RECEIVED_MESSAGES_LIMIT,
    ensures
        listed_after(messages, message).len() <= RECEIVED_MESSAGES_LIMIT,
        listed_after(messages, message)[0] == message,
{
}

/// A tab that stops being connected can connect again and can neither send
/// nor ping; a tab that becomes connected can send and ping.
pub proof fn lemma_controls_follow_connection(c: TabControls, current: ConnectionStatus)
    ensures
        current != ConnectionStatus::NotConnected ==> {
            let after = controls_after(c, current, ConnectionStatus::NotConnected);
            &&& after.connect_sensitive
            &&& !after.send_sensitive
            &&& !after.send_ping_sensitive
            &&& !after.disconnect_sensitive
        },
        current != ConnectionStatus::Connected ==> {
            let after = controls_after(c, current, ConnectionStatus::Connected);
            &&& after.send_sensitive
            &&& after.send_ping_sensitive
        },
        current != ConnectionStatus::Connecting ==> controls_after(
            c,
            current,
            ConnectionStatus::Connecting,
        ).poller_running,
{
}


/// What each change of status leaves usable, from any other status:
/// - not connected: connecting and the format choice, nothing else;
/// - connecting: neither connecting nor the format choice, and the poller runs;
/// - swapping connection: neither connecting, sending nor pinging;
/// - connected: sending and pinging;
/// - disconnecting: nothing of connecting, disconnecting, sending or pinging.
/// Every control a change does not name keeps its state.
pub proof fn lemma_controls_for_each_status(c: TabControls, current: ConnectionStatus)
    ensures
        current != ConnectionStatus::NotConnected ==> {
            let a = controls_after(c, current, ConnectionStatus::NotConnected);
            &&& a.format_dropdown_sensitive
            &&& a.connect_sensitive
            &&& !a.disconnect_sensitive
            &&& !a.send_sensitive
            &&& !a.send_ping_sensitive
            &&& a.poller_running == c.poller_running
        },
        current != ConnectionStatus::Connecting ==> {
            let a = controls_after(c, current, ConnectionStatus::Connecting);
            &&& !a.format_dropdown_sensitive
            &&& !a.connect_sensitive
            &&& a.poller_running
            &&& a.disconnect_sensitive == c.disconnect_sensitive
            &&& a.send_sensitive == c.send_sensitive
            &&& a.send_ping_sensitive == c.send_ping_sensitive
        },
        current != ConnectionStatus::SwappingConnection ==> {
            let a = controls_after(c, current, ConnectionStatus::SwappingConnection);
            &&& !a.connect_sensitive
            &&& !a.send_sensitive
            &&& !a.send_ping_sensitive
            &&& a.format_dropdown_sensitive == c.format_dropdown_sensitive
            &&& a.disconnect_sensitive == c.disconnect_sensitive
            &&& a.poller_running == c.poller_running
        },
        current != ConnectionStatus::Connected ==> {
            let a = controls_after(c, current, ConnectionStatus::Connected);
            &&& a.send_sensitive
            &&& a.send_ping_sensitive
            &&& a.format_dropdown_sensitive == c.format_dropdown_sensitive
            &&& a.connect_sensitive == c.connect_sensitive
            &&& a.disconnect_sensitive == c.disconnect_sensitive
            &&& a.poller_running == c.poller_running
        },
        current != ConnectionStatus::Disconnecting ==> {
            let a = controls_after(c, current, ConnectionStatus::Disconnecting);
            &&& !a.connect_sensitive
            &&& !a.disconnect_sensitive
            &&& !a.send_sensitive
            &&& !a.send_ping_sensitive
            &&& a.format_dropdown_sensitive == c.format_dropdown_sensitive
            &&& a.poller_running == c.poller_running
        },
{
}

/// The status each report of the pipeline moves the tab to: a connection
/// that succeeded makes it connected; a failed connection, a disconnection or
/// a request refused for want of a connection makes it not connected; a
/// disconnection under way makes it disconnecting; every other report (pings,
/// pongs, close frames, errors on a live connection) and every processed frame
/// leave the status as it is.
pub proof fn lemma_output_statuses(kind: crate::actors::web_socket_actor_messages::ClientMessageKind)
    ensures
        status_for_output(None) == None::<ConnectionStatus>,
        kind == crate::actors::web_socket_actor_messages::ClientMessageKind::ConnectionSucceed
            ==> status_for_output(Some(kind)) == Some(ConnectionStatus::Connected),
        kind == crate::actors::web_socket_actor_messages::ClientMessageKind::ConnectionFailed
            ==> status_for_output(Some(kind)) == Some(ConnectionStatus::NotConnected),
        kind == crate::actors::web_socket_actor_messages::ClientMessageKind::Disconnected
            ==> status_for_output(Some(kind)) == Some(ConnectionStatus::NotConnected),
        kind == crate::actors::web_socket_actor_messages::ClientMessageKind::NotConnected
            ==> status_for_output(Some(kind)) == Some(ConnectionStatus::NotConnected),
        kind == crate::actors::web_socket_actor_messages::ClientMessageKind::Disconnecting
            ==> status_for_output(Some(kind)) == Some(ConnectionStatus::Disconnecting),
        !(kind == crate::actors::web_socket_actor_messages::ClientMessageKind::ConnectionSucceed
            || kind == crate::actors::web_socket_actor_messages::ClientMessageKind::ConnectionFailed
            || kind == crate::actors::web_socket_actor_messages::ClientMessageKind::Disconnected
            || kind == crate::actors::web_socket_actor_messages::ClientMessageKind::NotConnected
            || kind == crate::actors::web_socket_actor_messages::ClientMessageKind::Disconnecting)
            ==> status_for_output(Some(kind)) == None::<ConnectionStatus>,
{
}


/// Listing a message puts it first and keeps the messages listed before it in
/// their order, dropping only the oldest when the list was full.
pub proof fn lemma_listing_keeps_order(messages: Seq<Seq<char>>, message: Seq<char>)
    requires
        messages.len() <= RECEIVED_MESSAGES_LIMIT,
    ensures
        messages.len() < RECEIVED_MESSAGES_LIMIT ==> listed_after(messages, message) == seq![message]
            + messages,
        messages.len() == RECEIVED_MESSAGES_LIMIT ==> listed_after(messages, message) == seq![
            message,
        ] + messages.take(RECEIVED_MESSAGES_LIMIT - 1),
{
    if messages.len() == RECEIVED_MESSAGES_LIMIT {
        assert((seq![message] + messages).drop_last() =~= seq![message] + messages.take(
            RECEIVED_MESSAGES_LIMIT - 1,
        ));
    }
}

/// The two read-only fields after a change of status: the status field shows
/// the new status's name; the connected address is cleared when the tab is no
/// longer connected, and kept otherwise.
pub proof fn lemma_texts_for_each_status(c: TabControls, current: ConnectionStatus, status: ConnectionStatus)
    requires
        current != status,
    ensures
        status == ConnectionStatus::NotConnected ==> texts_after(c, current, status) == (
            Seq::<char>::empty(),
            "NotConnected"@,
        ),
        status == ConnectionStatus::Connecting ==> texts_after(c, current, status) == (
            c.connected_address@,
            "Connecting"@,
        ),
        status == ConnectionStatus::SwappingConnection ==> texts_after(c, current, status) == (
            c.connected_address@,
            "SwappingConnection"@,
        ),
        status == ConnectionStatus::Connected ==> texts_after(c, current, status) == (
            c.connected_address@,
            "Connected"@,
        ),
        status == ConnectionStatus::Disconnecting ==> texts_after(c, current, status) == (
            c.connected_address@,
            "Disconnecting"@,
        ),
{
}

} // verus!

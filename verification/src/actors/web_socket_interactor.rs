//! The two ends of a WebSocket actor's channels: the client end, which sends
//! the actor requests and receives its output, and the server end, the actor's.
use std::rc::Rc;
use vstd::prelude::*;

use tokio::sync::mpsc::{Receiver, Sender};

use super::web_socket_actor_messages::{WebSocketActorInputMessage, WebSocketActorOutputMessage};

verus! {

#[verifier::external_type_specification]
#[verifier::external_body]
#[verifier::reject_recursive_types(T)]
pub struct ExMpscSender<T>(tokio::sync::mpsc::Sender<T>);

#[verifier::external_type_specification]
#[verifier::external_body]
#[verifier::reject_recursive_types(T)]
pub struct ExMpscReceiver<T>(tokio::sync::mpsc::Receiver<T>);

/// The largest buffer a bounded channel accepts.
pub const MAX_CHANNEL_BUFFER: usize = usize::MAX / 8;

/// Makes a bounded channel with room for `buffer` messages.
///
/// Calls `tokio::sync::mpsc::channel`, which panics on a buffer of zero or
/// above its semaphore's maximum (`usize::MAX >> 3`); the contract asks for a
/// buffer in that range and says nothing of the two ends.
#[verifier::external_body]
fn mpsc_channel<T>(buffer: usize) -> (Sender<T>, Receiver<T>)
    requires
        0 < buffer <= MAX_CHANNEL_BUFFER,
{
    tokio::sync::mpsc::channel(buffer)
}

pub struct WebSocketInteractorClient {
    actor_input_sender: Sender<WebSocketActorInputMessage>,
    actor_output_receiver: Rc<Receiver<WebSocketActorOutputMessage>>,
}

impl WebSocketInteractorClient {
    pub closed spec fn spec_input_sender(&self) -> Sender<WebSocketActorInputMessage> {
        self.actor_input_sender
    }

    pub closed spec fn spec_output_receiver(&self) -> Receiver<WebSocketActorOutputMessage> {
        *self.actor_output_receiver
    }

    pub fn new(
        actor_input_sender: Sender<WebSocketActorInputMessage>,
        actor_output_receiver: Receiver<WebSocketActorOutputMessage>,
    ) -> (client: Self)
        ensures
            client.spec_input_sender() == actor_input_sender,
            client.spec_output_receiver() == actor_output_receiver,
    {
        Self { actor_input_sender, actor_output_receiver: Rc::new(actor_output_receiver) }
    }

    pub fn input_sender(&self) -> (sender: &Sender<WebSocketActorInputMessage>)
        ensures
            *sender == self.spec_input_sender(),
    {
        &self.actor_input_sender
    }

    pub fn output_receiver(&self) -> (receiver: &Receiver<WebSocketActorOutputMessage>)
        ensures
            *receiver == self.spec_output_receiver(),
    {
        &self.actor_output_receiver
    }
}

pub struct WebSocketInteractorServer {
    actor_input_receiver: Receiver<WebSocketActorInputMessage>,
    actor_output_sender: Sender<WebSocketActorOutputMessage>,
}

impl WebSocketInteractorServer {
    pub closed spec fn spec_input_receiver(&self) -> Receiver<WebSocketActorInputMessage> {
        self.actor_input_receiver
    }

    pub closed spec fn spec_output_sender(&self) -> Sender<WebSocketActorOutputMessage> {
        self.actor_output_sender
    }

    pub fn new(
        actor_input_receiver: Receiver<WebSocketActorInputMessage>,
        actor_output_sender: Sender<WebSocketActorOutputMessage>,
    ) -> (server: Self)
        ensures
            server.spec_input_receiver() == actor_input_receiver,
            server.spec_output_sender() == actor_output_sender,
    {
        Self { actor_input_receiver, actor_output_sender }
    }

    pub fn input_receiver(&self) -> (receiver: &Receiver<WebSocketActorInputMessage>)
        ensures
            *receiver == self.spec_input_receiver(),
    {
        &self.actor_input_receiver
    }

    pub fn output_sender(&self) -> (sender: &Sender<WebSocketActorOutputMessage>)
        ensures
            *sender == self.spec_output_sender(),
    {
        &self.actor_output_sender
    }
}

/// The client and server ends of a new WebSocket actor's channels, with room
/// for the given numbers of requests and outputs.
pub fn web_socket_interactor(input_buffer_size: usize, output_buffer_size: usize) -> (ends: (
    WebSocketInteractorClient,
    WebSocketInteractorServer,
))
    requires
        0 < input_buffer_size <= MAX_CHANNEL_BUFFER,
        0 < output_buffer_size <= MAX_CHANNEL_BUFFER,
{
    let (actor_input_sender, actor_input_receiver) = mpsc_channel(input_buffer_size);
    let (actor_output_sender, actor_output_receiver) = mpsc_channel(output_buffer_size);
    (
        WebSocketInteractorClient::new(actor_input_sender, actor_output_receiver),
        WebSocketInteractorServer::new(actor_input_receiver, actor_output_sender),
    )
}

} // verus!

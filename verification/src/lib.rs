//! A text chat relay: sessions register a unique display name and broadcast
//! chat lines to every authenticated session.
//!
//! The crate root holds the protocol messages. [`state::ServerState`] is the
//! registry of live sessions and the fan-out engine; it keeps a
//! [`peer::Peer`] for each connection, with an [`outbox::Outbox`] as its
//! outbound endpoint. [`session`] drives one connection through its lifetime
//! and [`client`] holds the decisions of the client side. [`model`] describes
//! the registry as a map and its operations as functions on maps, and
//! [`laws`] proves what holds of them as a whole.
//!
//! Nothing here touches a socket or a terminal. The registry queues what is
//! to be sent to each connection; whoever owns the transport takes it from
//! there and reports back what happened.

use vstd::prelude::*;

pub mod client;
pub mod error;
pub mod laws;
pub mod model;
pub mod outbox;
pub mod peer;
pub mod session;
pub mod state;

verus! {

/// What a chat line looks like in contracts: the two texts as sequences of
/// characters.
pub struct MessageView {
    pub username: Seq<char>,
    pub message: Seq<char>,
}

/// A chat line stamped with the display name of the session that sent it.
#[derive(Debug, PartialEq, Eq)]
pub struct Message {
    pub username: String,
    pub message: String,
}

impl View for Message {
    type V = MessageView;

    open spec fn view(&self) -> MessageView {
        MessageView { username: self.username@, message: self.message@ }
    }
}

impl Message {
    /// The chat line `m` as said by `u`.
    pub fn new(u: String, m: String) -> (msg: Message)
        ensures
            msg.username == u,
            msg.message == m,
            msg@ == (MessageView { username: u@, message: m@ }),
    {
        Message { username: u, message: m }
    }
}

impl Clone for Message {
    fn clone(&self) -> (copy: Message)
        ensures
            copy == *self,
    {
        Message { username: self.username.clone(), message: self.message.clone() }
    }
}

/// A server-to-client message in contracts.
pub enum ServerMessageView {
    Unauthenticated,
    UsernameUnavailable,
    UsernameAccepted,
    Message(MessageView),
}

/// What the server tells one client.
#[derive(Debug, PartialEq, Eq)]
pub enum ServerMessage {
    /// The client has to claim a display name before it may chat.
    Unauthenticated,
    /// The display name asked for is held by a session.
    UsernameUnavailable,
    /// The display name asked for now belongs to the client.
    UsernameAccepted,
    /// A chat line from an authenticated session.
    Message(Message),
}

impl View for ServerMessage {
    type V = ServerMessageView;

    open spec fn view(&self) -> ServerMessageView {
        match *self {
            ServerMessage::Unauthenticated => ServerMessageView::Unauthenticated,
            ServerMessage::UsernameUnavailable => ServerMessageView::UsernameUnavailable,
            ServerMessage::UsernameAccepted => ServerMessageView::UsernameAccepted,
            ServerMessage::Message(m) => ServerMessageView::Message(m@),
        }
    }
}

impl Clone for ServerMessage {
    fn clone(&self) -> (copy: ServerMessage)
        ensures
            copy == *self,
    {
        match self {
            ServerMessage::Unauthenticated => ServerMessage::Unauthenticated,
            ServerMessage::UsernameUnavailable => ServerMessage::UsernameUnavailable,
            ServerMessage::UsernameAccepted => ServerMessage::UsernameAccepted,
            ServerMessage::Message(m) => ServerMessage::Message(m.clone()),
        }
    }
}

/// A client-to-server message in contracts.
pub enum ClientMessageView {
    Username(Seq<char>),
    Message(Seq<char>),
}

/// What one client tells the server.
#[derive(Debug, PartialEq, Eq)]
pub enum ClientMessage {
    /// Claim this display name.
    Username(String),
    /// Say this to everybody.
    Message(String),
}

impl View for ClientMessage {
    type V = ClientMessageView;

    open spec fn view(&self) -> ClientMessageView {
        match *self {
            ClientMessage::Username(name) => ClientMessageView::Username(name@),
            ClientMessage::Message(body) => ClientMessageView::Message(body@),
        }
    }
}

impl Clone for ClientMessage {
    fn clone(&self) -> (copy: ClientMessage)
        ensures
            copy == *self,
    {
        match self {
            ClientMessage::Username(name) => ClientMessage::Username(name.clone()),
            ClientMessage::Message(body) => ClientMessage::Message(body.clone()),
        }
    }
}

/// The views of a run of server messages, in the same order.
pub open spec fn server_message_views(messages: Seq<ServerMessage>) -> Seq<ServerMessageView> {
    messages.map_values(|m: ServerMessage| m@)
}

} // verus!

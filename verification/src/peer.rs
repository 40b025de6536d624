//! One connected client as the registry records it.

use vstd::prelude::*;
use crate::error::RegistryError;
use crate::outbox::{Outbox, OutboxView};
use crate::{server_message_views, MessageView, ServerMessage, ServerMessageView};

verus! {

/// A session in contracts.
pub struct PeerView {
    /// The identity of the connection; it never changes.
    pub peer_addr: u64,
    /// The display name, once one was claimed.
    pub username: Option<Seq<char>>,
    /// The outbound endpoint.
    pub transmitter: OutboxView,
}

impl PeerView {
    /// A session is authenticated once it holds a display name.
    pub open spec fn authenticated(self) -> bool {
        self.username is Some
    }

    /// The session after one delivery attempt on its endpoint.
    pub open spec fn receive(self, msg: ServerMessageView) -> PeerView {
        PeerView {
            peer_addr: self.peer_addr,
            username: self.username,
            transmitter: self.transmitter.accept(msg),
        }
    }

    /// The session after a chat line went out: an authenticated session
    /// saw one delivery attempt, any other session is untouched.
    pub open spec fn hear(self, line: MessageView) -> PeerView {
        if self.authenticated() {
            self.receive(ServerMessageView::Message(line))
        } else {
            self
        }
    }

    /// The session holding `name` as its display name.
    pub open spec fn renamed(self, name: Seq<char>) -> PeerView {
        PeerView {
            peer_addr: self.peer_addr,
            username: Some(name),
            transmitter: self.transmitter,
        }
    }

    /// The session after its write side took what waited.
    pub open spec fn drained(self) -> PeerView {
        PeerView {
            peer_addr: self.peer_addr,
            username: self.username,
            transmitter: self.transmitter.drained(),
        }
    }

    /// The session after its write side went away.
    pub open spec fn hung_up(self) -> PeerView {
        PeerView {
            peer_addr: self.peer_addr,
            username: self.username,
            transmitter: OutboxView::closed(),
        }
    }
}

/// The display name of an optional text, as contracts see it.
pub open spec fn name_view(username: Option<String>) -> Option<Seq<char>> {
    match username {
        Some(name) => Some(name@),
        None => None,
    }
}

/// The server-side record of one connection: its identity, its display name
/// once claimed, and its outbound endpoint.
#[derive(Debug)]
pub struct Peer {
    transmitter: Outbox,
    peer_addr: u64,
    username: Option<String>,
}

impl View for Peer {
    type V = PeerView;

    closed spec fn view(&self) -> PeerView {
        PeerView {
            peer_addr: self.peer_addr,
            username: name_view(self.username),
            transmitter: self.transmitter@,
        }
    }
}

impl Peer {
    /// The record of the connection `peer_addr`, with its endpoint and, if
    /// it has one already, its display name.
    pub fn new(transmitter: Outbox, peer_addr: u64, username: Option<String>) -> (peer: Peer)
        ensures
            peer@ == (PeerView {
                peer_addr,
                username: name_view(username),
                transmitter: transmitter@,
            }),
    {
        Peer { transmitter, peer_addr, username }
    }

    /// The identity of the connection.
    pub fn peer_addr(&self) -> (addr: u64)
        ensures
            addr == self@.peer_addr,
    {
        self.peer_addr
    }

    /// The display name, if one was claimed.
    pub fn username(&self) -> (name: Option<&String>)
        ensures
            name is Some == self@.authenticated(),
            name matches Some(text) ==> self@.username == Some(text@),
    {
        self.username.as_ref()
    }

    /// Whether the session holds a display name.
    pub fn is_authenticated(&self) -> (named: bool)
        ensures
            named == self@.authenticated(),
    {
        self.username.is_some()
    }

    /// The outbound endpoint.
    pub fn transmitter(&self) -> (endpoint: &Outbox)
        ensures
            endpoint@ == self@.transmitter,
    {
        &self.transmitter
    }

    /// Asks the client to claim a display name.
    pub fn request_authentication(&mut self) -> (sent: Result<(), RegistryError>)
        ensures
            final(self)@ == old(self)@.receive(ServerMessageView::Unauthenticated),
            old(self)@.transmitter.open ==> sent == Ok::<(), RegistryError>(()),
            !old(self)@.transmitter.open ==> sent == Err::<(), RegistryError>(
                RegistryError::DeliveryFailure,
            ),
    {
        self.deliver(ServerMessage::Unauthenticated)
    }

    /// Enqueues `msg` on the session's endpoint. A closed endpoint refuses
    /// it and the session stays unchanged.
    pub fn deliver(&mut self, msg: ServerMessage) -> (sent: Result<(), RegistryError>)
        ensures
            final(self)@ == old(self)@.receive(msg@),
            old(self)@.transmitter.open ==> sent == Ok::<(), RegistryError>(()),
            !old(self)@.transmitter.open ==> sent == Err::<(), RegistryError>(
                RegistryError::DeliveryFailure,
            ),
    {
        self.transmitter.send(msg)
    }

    /// Hands out what waits on the endpoint, oldest first.
    pub fn take_outbound(&mut self) -> (batch: Vec<ServerMessage>)
        ensures
            server_message_views(batch@) == old(self)@.transmitter.pending,
            final(self)@ == old(self)@.drained(),
    {
        self.transmitter.drain()
    }

    /// Closes the endpoint: the session stays registered, and every later
    /// delivery to it fails.
    pub fn hang_up(&mut self)
        ensures
            final(self)@ == old(self)@.hung_up(),
    {
        self.transmitter.close();
    }

    /// Sets the display name. Only the registry may do so, after it has
    /// checked that nobody holds the name.
    pub(crate) fn set_username(&mut self, name: String)
        ensures
            final(self)@ == old(self)@.renamed(name@),
    {
        self.username = Some(name);
    }
}

} // verus!

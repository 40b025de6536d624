//! The outbound endpoint of one session: an ordered queue that the registry
//! fills and the session's write side drains.

use vstd::prelude::*;
use crate::error::RegistryError;
use crate::{server_message_views, ServerMessage, ServerMessageView};

verus! {

/// An endpoint in contracts: whether it still takes messages, and what waits
/// in it, oldest first.
pub struct OutboxView {
    pub open: bool,
    pub pending: Seq<ServerMessageView>,
}

impl OutboxView {
    /// The endpoint after one delivery attempt: an open endpoint appends the
    /// message, a closed one stays as it is.
    pub open spec fn accept(self, msg: ServerMessageView) -> OutboxView {
        if self.open {
            OutboxView { open: true, pending: self.pending.push(msg) }
        } else {
            self
        }
    }

    /// The endpoint after its write side took everything that waited.
    pub open spec fn drained(self) -> OutboxView {
        OutboxView { open: self.open, pending: Seq::empty() }
    }

    /// The endpoint after its write side went away: it holds nothing and
    /// takes nothing.
    pub open spec fn closed() -> OutboxView {
        OutboxView { open: false, pending: Seq::empty() }
    }
}

/// A single-writer, single-reader queue of server messages. Messages leave
/// it in the order in which they entered.
#[derive(Debug)]
pub struct Outbox {
    queue: Vec<ServerMessage>,
    open: bool,
}

impl View for Outbox {
    type V = OutboxView;

    closed spec fn view(&self) -> OutboxView {
        OutboxView { open: self.open, pending: server_message_views(self.queue@) }
    }
}

impl Outbox {
    /// An open endpoint with nothing in it.
    pub fn new() -> (outbox: Outbox)
        ensures
            outbox@ == (OutboxView { open: true, pending: Seq::empty() }),
    {
        let outbox = Outbox { queue: Vec::new(), open: true };
        assert(server_message_views(outbox.queue@) =~= Seq::empty());
        outbox
    }

    /// Whether the endpoint still takes messages.
    pub fn is_open(&self) -> (open: bool)
        ensures
            open == self@.open,
    {
        self.open
    }

    /// How many messages wait.
    pub fn len(&self) -> (n: usize)
        ensures
            n == self@.pending.len(),
    {
        self.queue.len()
    }

    /// Enqueues `msg` behind everything that waits. A closed endpoint
    /// refuses it and stays unchanged.
    pub fn send(&mut self, msg: ServerMessage) -> (sent: Result<(), RegistryError>)
        ensures
            final(self)@ == old(self)@.accept(msg@),
            old(self)@.open ==> sent == Ok::<(), RegistryError>(()),
            !old(self)@.open ==> sent == Err::<(), RegistryError>(RegistryError::DeliveryFailure),
    {
        if self.open {
            self.queue.push(msg);
            assert(server_message_views(self.queue@) =~= server_message_views(
                old(self).queue@,
            ).push(msg@));
            Ok(())
        } else {
            Err(RegistryError::DeliveryFailure)
        }
    }

    /// Hands out everything that waits, oldest first, and leaves the queue
    /// empty.
    pub fn drain(&mut self) -> (batch: Vec<ServerMessage>)
        ensures
            server_message_views(batch@) == old(self)@.pending,
            final(self)@ == old(self)@.drained(),
    {
        let mut batch: Vec<ServerMessage> = Vec::new();
        std::mem::swap(&mut self.queue, &mut batch);
        assert(server_message_views(self.queue@) =~= Seq::empty());
        batch
    }

    /// Closes the endpoint for good and drops what still waited.
    pub fn close(&mut self)
        ensures
            final(self)@ == OutboxView::closed(),
    {
        self.open = false;
        self.queue.clear();
        assert(server_message_views(self.queue@) =~= Seq::empty());
    }
}

} // verus!

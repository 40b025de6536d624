//! The registry of live sessions and the fan-out engine.

use vstd::prelude::*;
use std::collections::HashMap;
use crate::error::RegistryError;
use crate::model::{
    admission_error, admitted, broadcast, claim_error, claimed, consistent, delivered,
    delivery_error, drained, holds_name, hung_up, line_error, line_of, lookup_error, name_held,
    out_of_reach, outcome_of, registered, registration_error, removed, Sessions,
};
use crate::peer::{Peer, PeerView};
use crate::{server_message_views, Message, ServerMessage, ServerMessageView};

verus! {

/// The set of live sessions. Sessions sit in a vector; an index maps each
/// identity to the position of its session, so that lookup, insertion and
/// removal take constant time and no identity is ever renumbered.
///
/// In contracts a registry is the map from identity to session that its
/// view gives. No operation asks anything of its caller: what a registry
/// needs to hold it holds by itself, at every moment.
pub struct ServerState {
    clients: Vec<Peer>,
    position_in_list: HashMap<u64, usize>,
}

/// The sessions that a vector and an index over it describe.
spec fn sessions_of(clients: Seq<Peer>, positions: Map<u64, usize>) -> Sessions {
    Map::new(|id: u64| positions.contains_key(id), |id: u64| clients[positions[id] as int]@)
}

/// The index and the vector describe the same sessions, and no display name
/// is held twice.
spec fn linked(clients: Seq<Peer>, positions: Map<u64, usize>) -> bool {
    &&& positions.dom().finite()
    &&& positions.dom().len() == clients.len()
    &&& forall|i: int|
        0 <= i < clients.len() ==> {
            let id = (#[trigger] clients[i])@.peer_addr;
            positions.contains_key(id) && positions[id] == i
        }
    &&& forall|id: u64| #[trigger]
        positions.contains_key(id) ==> {
            let i = positions[id] as int;
            0 <= i < clients.len() && clients[i]@.peer_addr == id
        }
    &&& forall|i: int, j: int|
        0 <= i < clients.len() && 0 <= j < clients.len() && i != j && (
        #[trigger] clients[i])@.username is Some ==> clients[i]@.username != (
        #[trigger] clients[j])@.username
}

/// Sessions that are linked to their index make a consistent registry.
proof fn lemma_linked_is_consistent(clients: Seq<Peer>, positions: Map<u64, usize>)
    requires
        linked(clients, positions),
    ensures
        consistent(sessions_of(clients, positions)),
        sessions_of(clients, positions).len() == clients.len(),
{
    assert(sessions_of(clients, positions).dom() =~= positions.dom());
}

impl View for ServerState {
    type V = Sessions;

    closed spec fn view(&self) -> Sessions {
        sessions_of(self.clients@, self.position_in_list@)
    }
}

impl ServerState {
    /// What holds of every registry at every moment.
    #[verifier::type_invariant]
    spec fn wf(self) -> bool {
        linked(self.clients@, self.position_in_list@)
    }

    /// Takes the sessions and their index out of the registry and leaves an
    /// empty registry behind, so that the two can be changed one after the
    /// other before they go back in together.
    fn take_apart(&mut self) -> (parts: (Vec<Peer>, HashMap<u64, usize>))
        ensures
            parts.0 == old(self).clients,
            parts.1 == old(self).position_in_list,
            linked(parts.0@, parts.1@),
    {
        proof {
            use_type_invariant(&*self);
        }
        let mut taken = ServerState::new();
        std::mem::swap(self, &mut taken);
        let ServerState { clients, position_in_list } = taken;
        (clients, position_in_list)
    }

    /// Puts sessions and their index into the registry.
    fn put_together(&mut self, clients: Vec<Peer>, position_in_list: HashMap<u64, usize>)
        requires
            linked(clients@, position_in_list@),
        ensures
            final(self).clients == clients,
            final(self).position_in_list == position_in_list,
            final(self)@ == sessions_of(clients@, position_in_list@),
            consistent(final(self)@),
    {
        proof {
            lemma_linked_is_consistent(clients@, position_in_list@);
        }
        *self = ServerState { clients, position_in_list };
    }

    /// A registry without sessions.
    pub fn new() -> (state: ServerState)
        ensures
            state@ == Map::<u64, PeerView>::empty(),
            consistent(state@),
    {
        let state = ServerState { clients: Vec::new(), position_in_list: HashMap::new() };
        proof {
            lemma_linked_is_consistent(state.clients@, state.position_in_list@);
        }
        state
    }

    /// How many sessions are live.
    pub fn len(&self) -> (n: usize)
        ensures
            n == self@.len(),
    {
        proof {
            use_type_invariant(self);
            lemma_linked_is_consistent(self.clients@, self.position_in_list@);
        }
        self.clients.len()
    }

    /// Does nothing when it runs. It is called for what it ensures: every
    /// registry is a consistent map of sessions.
    pub fn consistency(&self)
        ensures
            consistent(self@),
    {
        proof {
            use_type_invariant(self);
            lemma_linked_is_consistent(self.clients@, self.position_in_list@);
        }
    }

    /// The session registered under `peer_addr`, if it is live.
    pub fn get_peer(&self, peer_addr: u64) -> (found: Option<&Peer>)
        ensures
            match found {
                Some(peer) => self@.contains_key(peer_addr) && peer@ == self@[peer_addr],
                None => !self@.contains_key(peer_addr),
            },
    {
        proof {
            use_type_invariant(self);
        }
        match self.position_in_list.get(&peer_addr) {
            Some(idx) => Some(&self.clients[*idx]),
            None => None,
        }
    }

    /// Registers a new session under its identity. The registry refuses a
    /// session whose identity is live, and one that comes with a display
    /// name which a live session holds; it then stays as it was.
    pub fn add_peer(&mut self, client: Peer) -> (added: Result<&Peer, RegistryError>)
        ensures
            final(self)@ == admitted(old(self)@, client@),
            consistent(final(self)@),
            match admission_error(old(self)@, client@) {
                Some(e) => added == Err::<&Peer, RegistryError>(e),
                None => added matches Ok(peer) && peer@ == client@,
            },
    {
        self.consistency();
        let peer_addr = client.peer_addr();
        if self.position_in_list.contains_key(&peer_addr) {
            return Err(RegistryError::IdentityInUse);
        }
        let free = match client.username() {
            Some(name) => self.is_username_available(name.as_str()),
            None => true,
        };
        if !free {
            return Err(RegistryError::NameTaken);
        }
        let (mut clients, mut position_in_list) = self.take_apart();
        let position = clients.len();
        position_in_list.insert(peer_addr, position);
        clients.push(client);
        proof {
            assert forall|j: int| 0 <= j < position implies (#[trigger] clients@[j])@.username
                != client@.username || client@.username is None by {
                let id = old(self).clients@[j]@.peer_addr;
                if client@.username is Some && old(self).clients@[j]@.username
                    == client@.username {
                    assert(holds_name(old(self)@, id, client@.username->0));
                }
            }
        }
        self.put_together(clients, position_in_list);
        Ok(&self.clients[position])
    }

    /// Where the session of `peer_addr` sits, if it is live.
    fn position_of(&self, peer_addr: u64) -> (found: Option<usize>)
        ensures
            match found {
                Some(idx) => self@.contains_key(peer_addr) && idx < self.clients@.len()
                    && self.position_in_list@[peer_addr] == idx && self.clients@[idx as int]@
                    == self@[peer_addr],
                None => !self@.contains_key(peer_addr),
            },
    {
        proof {
            use_type_invariant(self);
        }
        match self.position_in_list.get(&peer_addr) {
            Some(idx) => Some(*idx),
            None => None,
        }
    }

    /// Removes the session of `socket_addr` and tells whether it was live.
    /// Removing an absent session changes nothing. The last session moves
    /// into the gap, and the index follows it.
    pub fn remove_peer(&mut self, socket_addr: u64) -> (was_live: bool)
        ensures
            was_live == old(self)@.contains_key(socket_addr),
            final(self)@ == removed(old(self)@, socket_addr),
            consistent(final(self)@),
    {
        self.consistency();
        let client_position = match self.position_of(socket_addr) {
            Some(idx) => idx,
            None => { return false; },
        };
        let (mut clients, mut position_in_list) = self.take_apart();
        let last_client_addr = clients[clients.len() - 1].peer_addr();
        position_in_list.insert(last_client_addr, client_position);
        position_in_list.remove(&socket_addr);
        let _gone = clients.swap_remove(client_position);
        self.put_together(clients, position_in_list);
        true
    }

    /// True iff no live session holds `username`.
    pub fn is_username_available(&self, username: &str) -> (available: bool)
        ensures
            available == !name_held(self@, username@),
    {
        proof {
            use_type_invariant(self);
        }
        let wanted = username.to_owned();
        let mut i: usize = 0;
        while i < self.clients.len()
            invariant
                linked(self.clients@, self.position_in_list@),
                i <= self.clients.len(),
                wanted@ == username@,
                forall|j: int|
                    0 <= j < i ==> (#[trigger] self.clients@[j])@.username != Some(username@),
            decreases self.clients.len() - i,
        {
            let held = match self.clients[i].username() {
                Some(name) => *name == wanted,
                None => false,
            };
            if held {
                proof {
                    let id = self.clients@[i as int]@.peer_addr;
                    assert(holds_name(self@, id, username@));
                }
                return false;
            }
            i += 1;
        }
        true
    }

    /// Whether the session of `socket_addr` holds a display name.
    pub fn is_peer_authenticated(&self, socket_addr: u64) -> (answer: Result<bool, RegistryError>)
        ensures
            match lookup_error(self@, socket_addr) {
                Some(e) => answer == Err::<bool, RegistryError>(e),
                None => answer == Ok::<bool, RegistryError>(self@[socket_addr].authenticated()),
            },
    {
        match self.position_of(socket_addr) {
            Some(idx) => Ok(self.clients[idx].is_authenticated()),
            None => Err(RegistryError::NotFound),
        }
    }

    /// Stamps `msg` with the display name of the session of `peer_addr`.
    pub fn build_peer_message(&self, peer_addr: u64, msg: String) -> (built: Result<
        Message,
        RegistryError,
    >)
        ensures
            match line_error(self@, peer_addr) {
                Some(e) => built == Err::<Message, RegistryError>(e),
                None => built matches Ok(stamped) && stamped@ == line_of(self@, peer_addr, msg@),
            },
    {
        let idx = match self.position_of(peer_addr) {
            Some(idx) => idx,
            None => { return Err(RegistryError::NotFound); },
        };
        match self.clients[idx].username() {
            Some(name) => Ok(Message::new(name.clone(), msg)),
            None => Err(RegistryError::Unauthenticated),
        }
    }

    /// Enqueues `msg` on the endpoint of the session of `peer_addr`, and on
    /// no other. A closed endpoint refuses it.
    pub fn deliver_to(&mut self, peer_addr: u64, msg: ServerMessage) -> (sent: Result<
        (),
        RegistryError,
    >)
        ensures
            final(self)@ == delivered(old(self)@, peer_addr, msg@),
            consistent(final(self)@),
            sent == outcome_of(delivery_error(old(self)@, peer_addr)),
    {
        self.consistency();
        let idx = match self.position_of(peer_addr) {
            Some(idx) => idx,
            None => { return Err(RegistryError::NotFound); },
        };
        let (mut clients, position_in_list) = self.take_apart();
        let sent = clients[idx].deliver(msg);
        self.put_together(clients, position_in_list);
        sent
    }

    /// Tells the session of `peer` that it has to claim a display name.
    pub fn peer_unauthenticated(&mut self, peer: u64) -> (sent: Result<(), RegistryError>)
        ensures
            final(self)@ == delivered(old(self)@, peer, ServerMessageView::Unauthenticated),
            consistent(final(self)@),
            sent == outcome_of(delivery_error(old(self)@, peer)),
    {
        self.deliver_to(peer, ServerMessage::Unauthenticated)
    }

    /// Tells the session of `peer` that the display name it asked for is
    /// held.
    pub fn username_unavailable(&mut self, peer: u64) -> (sent: Result<(), RegistryError>)
        ensures
            final(self)@ == delivered(old(self)@, peer, ServerMessageView::UsernameUnavailable),
            consistent(final(self)@),
            sent == outcome_of(delivery_error(old(self)@, peer)),
    {
        self.deliver_to(peer, ServerMessage::UsernameUnavailable)
    }

    /// Checks that nobody holds `username` and gives it to the session of
    /// `peer_addr`, in one step. A session that already has a name trades it
    /// for the new one. A name that any session holds, the asking one
    /// included, is refused and the registry stays as it was.
    pub fn claim_name(&mut self, peer_addr: u64, username: String) -> (claim: Result<
        (),
        RegistryError,
    >)
        ensures
            final(self)@ == claimed(old(self)@, peer_addr, username@),
            consistent(final(self)@),
            claim == outcome_of(claim_error(old(self)@, peer_addr, username@)),
            claim is Ok ==> holds_name(final(self)@, peer_addr, username@),
    {
        self.consistency();
        let idx = match self.position_of(peer_addr) {
            Some(idx) => idx,
            None => { return Err(RegistryError::NotFound); },
        };
        if !self.is_username_available(username.as_str()) {
            return Err(RegistryError::NameTaken);
        }
        let ghost name = username@;
        let (mut clients, position_in_list) = self.take_apart();
        clients[idx].set_username(username);
        proof {
            assert forall|j: int| 0 <= j < clients@.len() && j != idx implies (
            #[trigger] clients@[j])@.username != Some(name) by {
                let id = old(self).clients@[j]@.peer_addr;
                if old(self).clients@[j]@.username == Some(name) {
                    assert(holds_name(old(self)@, id, name));
                }
            }
        }
        self.put_together(clients, position_in_list);
        Ok(())
    }

    /// Claims `username` for the session of `peer_addr` as `claim_name`
    /// does, and on success tells the session that the name is its own. If
    /// the session's endpoint is closed, the name stays claimed and the
    /// failed delivery is reported.
    pub fn register_username(&mut self, peer_addr: u64, username: String) -> (done: Result<
        (),
        RegistryError,
    >)
        ensures
            final(self)@ == registered(old(self)@, peer_addr, username@),
            consistent(final(self)@),
            done == outcome_of(registration_error(old(self)@, peer_addr, username@)),
            claim_error(old(self)@, peer_addr, username@) is None ==> holds_name(
                final(self)@,
                peer_addr,
                username@,
            ),
    {
        match self.claim_name(peer_addr, username) {
            Ok(()) => self.deliver_to(peer_addr, ServerMessage::UsernameAccepted),
            Err(e) => Err(e),
        }
    }

    /// Hands out what waits on the endpoint of the session of `peer_addr`,
    /// oldest first, and leaves the endpoint empty.
    pub fn take_outbound(&mut self, peer_addr: u64) -> (taken: Result<
        Vec<ServerMessage>,
        RegistryError,
    >)
        ensures
            final(self)@ == drained(old(self)@, peer_addr),
            consistent(final(self)@),
            match lookup_error(old(self)@, peer_addr) {
                Some(e) => taken == Err::<Vec<ServerMessage>, RegistryError>(e),
                None => taken matches Ok(batch) && server_message_views(batch@) == old(
                    self,
                )@[peer_addr].transmitter.pending,
            },
    {
        self.consistency();
        let idx = match self.position_of(peer_addr) {
            Some(idx) => idx,
            None => { return Err(RegistryError::NotFound); },
        };
        let (mut clients, position_in_list) = self.take_apart();
        let batch = clients[idx].take_outbound();
        self.put_together(clients, position_in_list);
        Ok(batch)
    }

    /// Records that the write side of the session of `peer_addr` went away.
    /// The session stays registered until it is removed; deliveries to it
    /// fail from now on.
    pub fn hang_up(&mut self, peer_addr: u64) -> (done: Result<(), RegistryError>)
        ensures
            final(self)@ == hung_up(old(self)@, peer_addr),
            consistent(final(self)@),
            done == outcome_of(lookup_error(old(self)@, peer_addr)),
    {
        self.consistency();
        let idx = match self.position_of(peer_addr) {
            Some(idx) => idx,
            None => { return Err(RegistryError::NotFound); },
        };
        let (mut clients, position_in_list) = self.take_apart();
        clients[idx].hang_up();
        self.put_together(clients, position_in_list);
        Ok(())
    }

    /// The identities of the sessions that are authenticated right now, each
    /// once. A chat line reaches exactly their endpoints.
    pub fn snapshot_authenticated_endpoints(&self) -> (snapshot: Vec<u64>)
        ensures
            snapshot@.no_duplicates(),
            forall|id: u64|
                snapshot@.contains(id) <==> self@.contains_key(id) && self@[id].authenticated(),
    {
        proof {
            use_type_invariant(self);
        }
        let mut snapshot: Vec<u64> = Vec::new();
        let mut i: usize = 0;
        while i < self.clients.len()
            invariant
                linked(self.clients@, self.position_in_list@),
                i <= self.clients@.len(),
                forall|k: int|
                    0 <= k < snapshot@.len() ==> {
                        let id = #[trigger] snapshot@[k];
                        self@.contains_key(id) && self@[id].authenticated()
                            && self.position_in_list@[id] < i
                    },
                forall|j: int|
                    0 <= j < i && (#[trigger] self.clients@[j])@.authenticated()
                        ==> snapshot@.contains(self.clients@[j]@.peer_addr),
                snapshot@.no_duplicates(),
            decreases self.clients@.len() - i,
        {
            if self.clients[i].is_authenticated() {
                let id = self.clients[i].peer_addr();
                let ghost before = snapshot@;
                snapshot.push(id);
                proof {
                    assert(snapshot@[before.len() as int] == id);
                    assert forall|j: int|
                        0 <= j < i + 1 && (#[trigger] self.clients@[j])@.authenticated()
                        implies snapshot@.contains(self.clients@[j]@.peer_addr) by {
                        if j < i {
                            let k = choose|k: int|
                                0 <= k < before.len() && before[k] == self.clients@[j]@.peer_addr;
                            assert(snapshot@[k] == self.clients@[j]@.peer_addr);
                        }
                    }
                }
            }
            i += 1;
        }
        snapshot
    }

    /// Sends `msg` to every authenticated session, the sender included, and
    /// returns the identities of those whose endpoint refused it, each once.
    /// A refusal stops nothing: every other session still gets the message,
    /// nothing is undone and nothing is sent twice. The whole fan-out is one
    /// step of the registry, so two chat lines sent one after the other
    /// reach every endpoint in that order.
    pub fn cast_message(&mut self, msg: Message) -> (undelivered: Vec<u64>)
        ensures
            final(self)@ == broadcast(old(self)@, msg@),
            consistent(final(self)@),
            undelivered@.no_duplicates(),
            forall|id: u64| undelivered@.contains(id) <==> out_of_reach(old(self)@, id),
    {
        proof {
            use_type_invariant(&*self);
        }
        let (mut clients, position_in_list) = self.take_apart();
        let ghost before_all = clients@;
        let ghost sessions = sessions_of(before_all, position_in_list@);
        let mut undelivered: Vec<u64> = Vec::new();
        let mut i: usize = 0;
        while i < clients.len()
            invariant
                linked(before_all, position_in_list@),
                sessions == sessions_of(before_all, position_in_list@),
                i <= clients@.len(),
                clients@.len() == before_all.len(),
                forall|j: int|
                    0 <= j < i ==> (#[trigger] clients@[j])@ == before_all[j]@.hear(msg@),
                forall|j: int| i <= j < clients@.len() ==> #[trigger] clients@[j] == before_all[j],
                forall|k: int|
                    0 <= k < undelivered@.len() ==> {
                        let id = #[trigger] undelivered@[k];
                        out_of_reach(sessions, id) && position_in_list@[id] < i
                    },
                forall|j: int|
                    0 <= j < i && out_of_reach(sessions, (#[trigger] before_all[j])@.peer_addr)
                        ==> undelivered@.contains(before_all[j]@.peer_addr),
                undelivered@.no_duplicates(),
            decreases clients@.len() - i,
        {
            let ghost before = undelivered@;
            if clients[i].is_authenticated() {
                let copy = msg.clone();
                if clients[i].deliver(ServerMessage::Message(copy)).is_err() {
                    let id = clients[i].peer_addr();
                    undelivered.push(id);
                    proof {
                        assert(undelivered@[before.len() as int] == id);
                    }
                }
            }
            proof {
                assert forall|j: int|
                    0 <= j < i + 1 && out_of_reach(sessions, (#[trigger] before_all[j])@.peer_addr)
                    implies undelivered@.contains(before_all[j]@.peer_addr) by {
                    if j < i {
                        let k = choose|k: int|
                            0 <= k < before.len() && before[k] == before_all[j]@.peer_addr;
                        assert(undelivered@[k] == before_all[j]@.peer_addr);
                    }
                }
            }
            i += 1;
        }
        self.put_together(clients, position_in_list);
        undelivered
    }
}

} // verus!

//! The lifetime of one connection: what the registry does, and which phase
//! the connection is in, after each thing that happens on its transport.
//!
//! The transport itself is not here. Whoever owns it reads frames, turns
//! them into events, hands each event to [`handle_client_event`] and writes
//! out what [`crate::state::ServerState::take_outbound`] returns. Events of
//! one connection are handled one after the other, and each is handled in a
//! single step of the registry.

use vstd::prelude::*;
use crate::error::RegistryError;
use crate::model::{
    admitted, broadcast, claimed, consistent, delivered, line_of, name_held, out_of_reach,
    removed, Sessions,
};
use crate::outbox::{Outbox, OutboxView};
use crate::peer::{Peer, PeerView};
use crate::state::ServerState;
use crate::{ClientMessage, ClientMessageView, ServerMessageView};

verus! {

/// Something that happened on the transport of one connection, in
/// contracts.
pub enum ClientEventView {
    Connected,
    Frame(ClientMessageView),
    Malformed,
    Closed,
}

/// Something that happened on the transport of one connection.
#[derive(Debug, PartialEq, Eq)]
pub enum ClientEvent {
    /// The connection was accepted.
    Connected,
    /// A well-formed frame arrived.
    Frame(ClientMessage),
    /// A frame arrived that could not be decoded.
    Malformed,
    /// The inbound stream ended or failed, or the outbound path failed for
    /// good.
    Closed,
}

impl View for ClientEvent {
    type V = ClientEventView;

    open spec fn view(&self) -> ClientEventView {
        match *self {
            ClientEvent::Connected => ClientEventView::Connected,
            ClientEvent::Frame(frame) => ClientEventView::Frame(frame@),
            ClientEvent::Malformed => ClientEventView::Malformed,
            ClientEvent::Closed => ClientEventView::Closed,
        }
    }
}

/// Where a connection stands.
#[derive(Debug, Clone, Copy, PartialEq, Eq, Structural)]
pub enum SessionPhase {
    /// Accepted, not registered yet. Every connection starts here.
    Connecting,
    /// Registered, without a display name: it may only claim one.
    Unauthenticated,
    /// Registered under a display name: it may chat.
    Authenticated,
    /// Gone from the registry. Nothing follows.
    Disconnected,
}

/// What handling one event led to.
#[derive(Debug)]
pub struct Outcome {
    /// The phase of the connection after the event. While it is not
    /// `Disconnected` the connection goes on.
    pub phase: SessionPhase,
    /// The identities whose endpoint refused a delivery during this step,
    /// each once.
    pub undelivered: Vec<u64>,
}

/// A session as it enters the registry: no display name, an open endpoint,
/// and the request to authenticate waiting on it.
pub open spec fn newcomer(id: u64) -> PeerView {
    PeerView {
        peer_addr: id,
        username: None,
        transmitter: OutboxView {
            open: true,
            pending: seq![ServerMessageView::Unauthenticated],
        },
    }
}

/// The phase of connection `id` as the registry shows it.
pub open spec fn phase_in(sessions: Sessions, id: u64) -> SessionPhase {
    if !sessions.contains_key(id) {
        SessionPhase::Disconnected
    } else if sessions[id].authenticated() {
        SessionPhase::Authenticated
    } else {
        SessionPhase::Unauthenticated
    }
}

/// The registry after a direct reply to the live session `id`: the reply
/// waits on its endpoint, or, if the endpoint is closed, the session is torn
/// down.
pub open spec fn replied(sessions: Sessions, id: u64, msg: ServerMessageView) -> Sessions {
    if sessions[id].transmitter.open {
        delivered(sessions, id, msg)
    } else {
        removed(sessions, id)
    }
}

/// The registry after `event` on connection `id`.
///
/// - `Connected` registers a newcomer, unless the identity is live.
/// - A name claim gives the name to the session if nobody holds it, and
///   replies with the verdict. A session that has a name may claim another
///   free one and lets go of the old one.
/// - A chat line from an authenticated session goes to every authenticated
///   session; from any other session it is dropped and answered with the
///   request to authenticate.
/// - A malformed frame and the end of the transport remove the session.
/// - A frame for a session that is not live changes nothing.
pub open spec fn step(sessions: Sessions, id: u64, event: ClientEventView) -> Sessions {
    match event {
        ClientEventView::Connected => if sessions.contains_key(id) {
            sessions
        } else {
            admitted(sessions, newcomer(id))
        },
        ClientEventView::Frame(frame) => if !sessions.contains_key(id) {
            sessions
        } else {
            match frame {
                ClientMessageView::Username(name) => if name_held(sessions, name) {
                    replied(sessions, id, ServerMessageView::UsernameUnavailable)
                } else {
                    replied(claimed(sessions, id, name), id, ServerMessageView::UsernameAccepted)
                },
                ClientMessageView::Message(body) => if sessions[id].authenticated() {
                    broadcast(sessions, line_of(sessions, id, body))
                } else {
                    replied(sessions, id, ServerMessageView::Unauthenticated)
                },
            }
        },
        ClientEventView::Malformed => removed(sessions, id),
        ClientEventView::Closed => removed(sessions, id),
    }
}

/// The phase of connection `id` after `event`. A connection whose identity
/// is already live is turned away at once; the live session is not touched.
pub open spec fn step_phase(sessions: Sessions, id: u64, event: ClientEventView) -> SessionPhase {
    if event is Connected && sessions.contains_key(id) {
        SessionPhase::Disconnected
    } else {
        phase_in(step(sessions, id, event), id)
    }
}

/// Whether the endpoint of `recipient` refuses a delivery while `event` on
/// connection `id` is handled.
pub open spec fn step_refused(
    sessions: Sessions,
    id: u64,
    event: ClientEventView,
    recipient: u64,
) -> bool {
    match event {
        ClientEventView::Frame(frame) => sessions.contains_key(id) && match frame {
            ClientMessageView::Message(body) => if sessions[id].authenticated() {
                out_of_reach(sessions, recipient)
            } else {
                recipient == id && !sessions[id].transmitter.open
            },
            ClientMessageView::Username(name) => recipient == id
                && !sessions[id].transmitter.open,
        },
        _ => false,
    }
}

/// A report that names one identity names it once and names no other.
proof fn lemma_report_of_one(id: u64)
    ensures
        seq![id].no_duplicates(),
        forall|recipient: u64| seq![id].contains(recipient) <==> recipient == id,
{
    assert(seq![id][0] == id);
}

/// Ends the handling of an event after a direct reply to `peer_addr`: a
/// reply that the endpoint refused tears the session down.
fn settle(state: &mut ServerState, peer_addr: u64, sent: Result<(), RegistryError>) -> (outcome:
    Outcome)
    requires
        sent is Err ==> (sent->Err_0 == RegistryError::NotFound
            <==> !old(state)@.contains_key(peer_addr)),
    ensures
        consistent(final(state)@),
        final(state)@ == if sent is Ok {
            old(state)@
        } else {
            removed(old(state)@, peer_addr)
        },
        outcome.phase == phase_in(final(state)@, peer_addr),
        outcome.undelivered@ == if sent is Err && old(state)@.contains_key(peer_addr) {
            seq![peer_addr]
        } else {
            Seq::<u64>::empty()
        },
{
    state.consistency();
    let mut undelivered: Vec<u64> = Vec::new();
    match sent {
        Ok(()) => {
            let phase = match state.is_peer_authenticated(peer_addr) {
                Ok(true) => SessionPhase::Authenticated,
                Ok(false) => SessionPhase::Unauthenticated,
                Err(_) => SessionPhase::Disconnected,
            };
            Outcome { phase, undelivered }
        },
        Err(_) => {
            if state.remove_peer(peer_addr) {
                undelivered.push(peer_addr);
            }
            Outcome { phase: SessionPhase::Disconnected, undelivered }
        },
    }
}

/// Handles one event of connection `peer_addr` and says where the
/// connection stands afterwards.
pub fn handle_client_event(
    state: &mut ServerState,
    peer_addr: u64,
    event: ClientEvent,
) -> (outcome: Outcome)
    ensures
        final(state)@ == step(old(state)@, peer_addr, event@),
        consistent(final(state)@),
        outcome.phase == step_phase(old(state)@, peer_addr, event@),
        outcome.phase != SessionPhase::Connecting,
        outcome.undelivered@.no_duplicates(),
        forall|recipient: u64|
            outcome.undelivered@.contains(recipient) <==> step_refused(
                old(state)@,
                peer_addr,
                event@,
                recipient,
            ),
{
    state.consistency();
    match event {
        ClientEvent::Connected => {
            let mut peer = Peer::new(Outbox::new(), peer_addr, None);
            let _ = peer.request_authentication();
            let phase = match state.add_peer(peer) {
                Ok(_) => SessionPhase::Unauthenticated,
                Err(_) => SessionPhase::Disconnected,
            };
            Outcome { phase, undelivered: Vec::new() }
        },
        ClientEvent::Frame(ClientMessage::Username(u)) => {
            let sent = if state.is_username_available(u.as_str()) {
                state.register_username(peer_addr, u)
            } else {
                state.username_unavailable(peer_addr)
            };
            let outcome = settle(state, peer_addr, sent);
            proof {
                lemma_report_of_one(peer_addr);
            }
            outcome
        },
        ClientEvent::Frame(ClientMessage::Message(m)) => {
            match state.build_peer_message(peer_addr, m) {
                Ok(msg) => {
                    let undelivered = state.cast_message(msg);
                    Outcome { phase: SessionPhase::Authenticated, undelivered }
                },
                Err(RegistryError::Unauthenticated) => {
                    let sent = state.peer_unauthenticated(peer_addr);
                    let outcome = settle(state, peer_addr, sent);
                    proof {
                        lemma_report_of_one(peer_addr);
                    }
                    outcome
                },
                Err(_) => Outcome { phase: SessionPhase::Disconnected, undelivered: Vec::new() },
            }
        },
        ClientEvent::Malformed => {
            state.remove_peer(peer_addr);
            Outcome { phase: SessionPhase::Disconnected, undelivered: Vec::new() }
        },
        ClientEvent::Closed => {
            state.remove_peer(peer_addr);
            Outcome { phase: SessionPhase::Disconnected, undelivered: Vec::new() }
        },
    }
}

} // verus!

//! The registry as a mathematical map from identity to session, and each
//! operation as a function on such maps. An operation that is refused
//! leaves the map as it was; a second function says why it is refused.

use vstd::prelude::*;
use crate::error::RegistryError;
use crate::peer::PeerView;
use crate::{MessageView, ServerMessageView};

verus! {

/// The live sessions by identity.
pub type Sessions = Map<u64, PeerView>;

/// Session `id` is live and holds `name`.
pub open spec fn holds_name(sessions: Sessions, id: u64, name: Seq<char>) -> bool {
    sessions.contains_key(id) && sessions[id].username == Some(name)
}

/// Some live session holds `name`.
pub open spec fn name_held(sessions: Sessions, name: Seq<char>) -> bool {
    exists|id: u64| holds_name(sessions, id, name)
}

/// What every registry satisfies: finitely many sessions, each stored under
/// its own identity, and no display name held twice.
pub open spec fn consistent(sessions: Sessions) -> bool {
    &&& sessions.dom().finite()
    &&& forall|id: u64| #[trigger]
        sessions.contains_key(id) ==> sessions[id].peer_addr == id
    &&& forall|a: u64, b: u64, name: Seq<char>|
        holds_name(sessions, a, name) && holds_name(sessions, b, name) ==> a == b
}

/// The result of an operation that hands nothing back: the error, if there
/// is one.
pub open spec fn outcome_of(error: Option<RegistryError>) -> Result<(), RegistryError> {
    match error {
        Some(e) => Err(e),
        None => Ok(()),
    }
}

/// Why nothing can be done with session `id`, if nothing can: it is not
/// live.
pub open spec fn lookup_error(sessions: Sessions, id: u64) -> Option<RegistryError> {
    if sessions.contains_key(id) {
        None
    } else {
        Some(RegistryError::NotFound)
    }
}

/// Why `peer` cannot join, if it cannot: its identity is live, or it comes
/// with a display name that is held.
pub open spec fn admission_error(sessions: Sessions, peer: PeerView) -> Option<RegistryError> {
    if sessions.contains_key(peer.peer_addr) {
        Some(RegistryError::IdentityInUse)
    } else if peer.username is Some && name_held(sessions, peer.username->0) {
        Some(RegistryError::NameTaken)
    } else {
        None
    }
}

/// The registry after `peer` asked to join.
pub open spec fn admitted(sessions: Sessions, peer: PeerView) -> Sessions {
    if admission_error(sessions, peer) is None {
        sessions.insert(peer.peer_addr, peer)
    } else {
        sessions
    }
}

/// The registry without session `id`.
pub open spec fn removed(sessions: Sessions, id: u64) -> Sessions {
    sessions.remove(id)
}

/// Why session `id` cannot take `name`, if it cannot: the session is not
/// live, or some session, maybe itself, holds the name.
pub open spec fn claim_error(sessions: Sessions, id: u64, name: Seq<char>) -> Option<
    RegistryError,
> {
    if !sessions.contains_key(id) {
        Some(RegistryError::NotFound)
    } else if name_held(sessions, name) {
        Some(RegistryError::NameTaken)
    } else {
        None
    }
}

/// The registry after session `id` asked for `name`.
pub open spec fn claimed(sessions: Sessions, id: u64, name: Seq<char>) -> Sessions {
    if claim_error(sessions, id, name) is None {
        sessions.insert(id, sessions[id].renamed(name))
    } else {
        sessions
    }
}

/// Why a message does not reach session `id`, if it does not: the session
/// is not live, or its endpoint is closed.
pub open spec fn delivery_error(sessions: Sessions, id: u64) -> Option<RegistryError> {
    if !sessions.contains_key(id) {
        Some(RegistryError::NotFound)
    } else if !sessions[id].transmitter.open {
        Some(RegistryError::DeliveryFailure)
    } else {
        None
    }
}

/// The registry after one delivery attempt to session `id`.
pub open spec fn delivered(sessions: Sessions, id: u64, msg: ServerMessageView) -> Sessions {
    if sessions.contains_key(id) {
        sessions.insert(id, sessions[id].receive(msg))
    } else {
        sessions
    }
}

/// Why registering `name` for session `id` fails, if it does: the claim is
/// refused, or the claim holds and the news of it does not reach the
/// session.
pub open spec fn registration_error(sessions: Sessions, id: u64, name: Seq<char>) -> Option<
    RegistryError,
> {
    if claim_error(sessions, id, name) is Some {
        claim_error(sessions, id, name)
    } else {
        delivery_error(sessions, id)
    }
}

/// The registry after session `id` asked to register `name`: the name is
/// claimed and, if it was, the session is told so.
pub open spec fn registered(sessions: Sessions, id: u64, name: Seq<char>) -> Sessions {
    if claim_error(sessions, id, name) is None {
        delivered(claimed(sessions, id, name), id, ServerMessageView::UsernameAccepted)
    } else {
        sessions
    }
}

/// The registry after the write side of session `id` took what waited.
pub open spec fn drained(sessions: Sessions, id: u64) -> Sessions {
    if sessions.contains_key(id) {
        sessions.insert(id, sessions[id].drained())
    } else {
        sessions
    }
}

/// The registry after the write side of session `id` went away.
pub open spec fn hung_up(sessions: Sessions, id: u64) -> Sessions {
    if sessions.contains_key(id) {
        sessions.insert(id, sessions[id].hung_up())
    } else {
        sessions
    }
}

/// Why session `id` cannot say a chat line, if it cannot: it is not live,
/// or it has no display name.
pub open spec fn line_error(sessions: Sessions, id: u64) -> Option<RegistryError> {
    if !sessions.contains_key(id) {
        Some(RegistryError::NotFound)
    } else if !sessions[id].authenticated() {
        Some(RegistryError::Unauthenticated)
    } else {
        None
    }
}

/// The chat line that session `id` says with `body`.
pub open spec fn line_of(sessions: Sessions, id: u64, body: Seq<char>) -> MessageView {
    MessageView { username: sessions[id].username->0, message: body }
}

/// The registry after a chat line went out: every authenticated session saw
/// one delivery attempt, every other session is untouched.
pub open spec fn broadcast(sessions: Sessions, msg: MessageView) -> Sessions {
    Map::new(|id: u64| sessions.contains_key(id), |id: u64| sessions[id].hear(msg))
}

/// A chat line sent now would not reach session `id`: it is authenticated
/// and its endpoint is closed.
pub open spec fn out_of_reach(sessions: Sessions, id: u64) -> bool {
    sessions.contains_key(id) && sessions[id].authenticated() && !sessions[id].transmitter.open
}

} // verus!

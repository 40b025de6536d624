//! What holds of the registry as a whole, stated over the map of sessions
//! that the contracts of [`crate::state::ServerState`] speak of.

use vstd::prelude::*;
use crate::model::{
    admission_error, admitted, broadcast, claim_error, claimed, consistent, delivered, holds_name,
    line_of, name_held, out_of_reach, removed, Sessions,
};
use crate::error::RegistryError;
use crate::peer::PeerView;
use crate::session::{newcomer, phase_in, step, step_refused, ClientEventView, SessionPhase};
use crate::{ClientMessageView, MessageView, ServerMessageView};

verus! {

/// One call that adds or removes a session.
pub enum RegistryOp {
    /// `add_peer` with this session.
    Add(PeerView),
    /// `remove_peer` with this identity.
    Remove(u64),
}

/// The registry after one add or remove.
pub open spec fn applied(sessions: Sessions, op: RegistryOp) -> Sessions {
    match op {
        RegistryOp::Add(peer) => admitted(sessions, peer),
        RegistryOp::Remove(id) => removed(sessions, id),
    }
}

/// By how much one add or remove changes the number of sessions: an add
/// that was admitted counts one, a remove that found its session counts
/// minus one, every other call counts nothing.
pub open spec fn change(sessions: Sessions, op: RegistryOp) -> int {
    match op {
        RegistryOp::Add(peer) => if admission_error(sessions, peer) is None {
            1
        } else {
            0
        },
        RegistryOp::Remove(id) => if sessions.contains_key(id) {
            -1
        } else {
            0
        },
    }
}

/// The registry after a run of adds and removes, first call first.
pub open spec fn replayed(sessions: Sessions, ops: Seq<RegistryOp>) -> Sessions
    decreases ops.len(),
{
    if ops.len() == 0 {
        sessions
    } else {
        applied(replayed(sessions, ops.drop_last()), ops.last())
    }
}

/// The adds that were admitted minus the removes that found their session,
/// over a run of calls.
pub open spec fn net_change(sessions: Sessions, ops: Seq<RegistryOp>) -> int
    decreases ops.len(),
{
    if ops.len() == 0 {
        0
    } else {
        net_change(sessions, ops.drop_last()) + change(
            replayed(sessions, ops.drop_last()),
            ops.last(),
        )
    }
}

/// An admitted session keeps the registry consistent, makes it one larger,
/// and is found again under its identity exactly as it came in; every other
/// session stays where it was.
pub proof fn lemma_add_round_trip(sessions: Sessions, peer: PeerView)
    requires
        consistent(sessions),
        admission_error(sessions, peer) is None,
    ensures
        consistent(admitted(sessions, peer)),
        admitted(sessions, peer).len() == sessions.len() + 1,
        admitted(sessions, peer).contains_key(peer.peer_addr),
        admitted(sessions, peer)[peer.peer_addr] == peer,
        forall|id: u64|
            id != peer.peer_addr ==> (admitted(sessions, peer).contains_key(id)
                <==> sessions.contains_key(id)),
        forall|id: u64| #[trigger]
            sessions.contains_key(id) ==> admitted(sessions, peer)[id] == sessions[id],
{
    let after = admitted(sessions, peer);
    assert forall|a: u64, b: u64, name: Seq<char>|
        holds_name(after, a, name) && holds_name(after, b, name) implies a == b by {
        if a != b {
            if a == peer.peer_addr {
                assert(holds_name(sessions, b, name));
            } else if b == peer.peer_addr {
                assert(holds_name(sessions, a, name));
            } else {
                assert(holds_name(sessions, a, name) && holds_name(sessions, b, name));
            }
        }
    }
}

/// Removing a session keeps the registry consistent and leaves every other
/// session where it was. The registry is one smaller if the session was
/// live and unchanged if it was not.
pub proof fn lemma_remove(sessions: Sessions, id: u64)
    requires
        consistent(sessions),
    ensures
        consistent(removed(sessions, id)),
        !removed(sessions, id).contains_key(id),
        sessions.contains_key(id) ==> removed(sessions, id).len() == sessions.len() - 1,
        !sessions.contains_key(id) ==> removed(sessions, id) == sessions,
        forall|other: u64|
            other != id && #[trigger] sessions.contains_key(other) ==> removed(
                sessions,
                id,
            ).contains_key(other) && removed(sessions, id)[other] == sessions[other],
{
    let after = removed(sessions, id);
    assert forall|a: u64, b: u64, name: Seq<char>|
        holds_name(after, a, name) && holds_name(after, b, name) implies a == b by {
        assert(holds_name(sessions, a, name) && holds_name(sessions, b, name));
    }
}

/// Removing a session a second time changes nothing: the registry is the
/// one that the first removal left, still consistent and of the same size.
pub proof fn lemma_remove_twice(sessions: Sessions, id: u64)
    requires
        consistent(sessions),
    ensures
        removed(removed(sessions, id), id) == removed(sessions, id),
        consistent(removed(removed(sessions, id), id)),
        removed(removed(sessions, id), id).len() == removed(sessions, id).len(),
{
    lemma_remove(sessions, id);
    lemma_remove(removed(sessions, id), id);
}

/// After any run of adds and removes the registry is consistent, and its
/// size is the size it started with, plus the adds that were admitted, minus
/// the removes that found their session.
pub proof fn lemma_size_after_calls(sessions: Sessions, ops: Seq<RegistryOp>)
    requires
        consistent(sessions),
    ensures
        consistent(replayed(sessions, ops)),
        replayed(sessions, ops).len() == sessions.len() + net_change(sessions, ops),
    decreases ops.len(),
{
    if ops.len() > 0 {
        lemma_size_after_calls(sessions, ops.drop_last());
        let before = replayed(sessions, ops.drop_last());
        match ops.last() {
            RegistryOp::Add(peer) => {
                if admission_error(before, peer) is None {
                    lemma_add_round_trip(before, peer);
                }
            },
            RegistryOp::Remove(id) => {
                lemma_remove(before, id);
            },
        }
    }
}

/// A live session is found as it is, under its identity, after any run of
/// adds and removes that does not remove it.
pub proof fn lemma_lookup_survives_calls(sessions: Sessions, ops: Seq<RegistryOp>, id: u64)
    requires
        consistent(sessions),
        sessions.contains_key(id),
        forall|k: int| 0 <= k < ops.len() ==> ops[k] != RegistryOp::Remove(id),
    ensures
        replayed(sessions, ops).contains_key(id),
        replayed(sessions, ops)[id] == sessions[id],
        replayed(sessions, ops)[id].peer_addr == id,
    decreases ops.len(),
{
    if ops.len() > 0 {
        lemma_lookup_survives_calls(sessions, ops.drop_last(), id);
    }
}

/// A name that was just claimed is held, by the claimant and by nobody
/// else, and the registry is still consistent. Whoever claims it next is
/// refused.
pub proof fn lemma_claim_excludes(sessions: Sessions, id: u64, name: Seq<char>)
    requires
        consistent(sessions),
        claim_error(sessions, id, name) is None,
    ensures
        consistent(claimed(sessions, id, name)),
        claim_error(claimed(sessions, id, name), id, name) == Some(RegistryError::NameTaken),
        forall|other: u64|
            claim_error(claimed(sessions, id, name), other, name) is Some,
        name_held(claimed(sessions, id, name), name),
        forall|other: u64| holds_name(claimed(sessions, id, name), other, name) ==> other == id,
        claimed(sessions, id, name).len() == sessions.len(),
{
    let after = claimed(sessions, id, name);
    assert(holds_name(after, id, name));
    assert forall|other: u64| holds_name(after, other, name) implies other == id by {
        if other != id {
            assert(holds_name(sessions, other, name));
        }
    }
    assert forall|a: u64, b: u64, held: Seq<char>|
        holds_name(after, a, held) && holds_name(after, b, held) implies a == b by {
        if a != id && b != id {
            assert(holds_name(sessions, a, held) && holds_name(sessions, b, held));
        }
    }
}

/// In a consistent registry a display name has at most one holder.
pub proof fn lemma_one_holder(sessions: Sessions, a: u64, b: u64, name: Seq<char>)
    requires
        consistent(sessions),
        holds_name(sessions, a, name),
        holds_name(sessions, b, name),
    ensures
        a == b,
{
}

/// The registry after the sessions `claimants` asked for `name` one after
/// the other.
pub open spec fn after_claims(sessions: Sessions, claimants: Seq<u64>, name: Seq<char>) -> Sessions
    decreases claimants.len(),
{
    if claimants.len() == 0 {
        sessions
    } else {
        claimed(after_claims(sessions, claimants.drop_last(), name), claimants.last(), name)
    }
}

/// How many of the claims of `name` by `claimants`, made one after the
/// other, were granted.
pub open spec fn claims_granted(sessions: Sessions, claimants: Seq<u64>, name: Seq<char>) -> nat
    decreases claimants.len(),
{
    if claimants.len() == 0 {
        0
    } else {
        let before = after_claims(sessions, claimants.drop_last(), name);
        let earlier = claims_granted(sessions, claimants.drop_last(), name);
        if claim_error(before, claimants.last(), name) is None {
            earlier + 1
        } else {
            earlier
        }
    }
}

/// However many sessions ask for the same name, in whatever order, at most
/// one of them gets it, and none if the name was held before. Once one has
/// it, the name is held.
pub proof fn lemma_at_most_one_claim_granted(
    sessions: Sessions,
    claimants: Seq<u64>,
    name: Seq<char>,
)
    requires
        consistent(sessions),
    ensures
        consistent(after_claims(sessions, claimants, name)),
        claims_granted(sessions, claimants, name) <= 1,
        name_held(sessions, name) ==> claims_granted(sessions, claimants, name) == 0,
        name_held(sessions, name) || claims_granted(sessions, claimants, name) == 1 ==> name_held(
            after_claims(sessions, claimants, name),
            name,
        ),
    decreases claimants.len(),
{
    if claimants.len() > 0 {
        lemma_at_most_one_claim_granted(sessions, claimants.drop_last(), name);
        let before = after_claims(sessions, claimants.drop_last(), name);
        if claim_error(before, claimants.last(), name) is None {
            lemma_claim_excludes(before, claimants.last(), name);
        }
    }
}

/// A delivery to one session keeps the registry consistent and touches no
/// other session.
pub proof fn lemma_delivery_is_local(sessions: Sessions, id: u64, msg: ServerMessageView)
    requires
        consistent(sessions),
        sessions.contains_key(id),
    ensures
        consistent(delivered(sessions, id, msg)),
        delivered(sessions, id, msg).dom() == sessions.dom(),
        forall|other: u64|
            other != id && #[trigger] sessions.contains_key(other) ==> delivered(
                sessions,
                id,
                msg,
            )[other] == sessions[other],
{
    let after = delivered(sessions, id, msg);
    assert forall|a: u64, b: u64, name: Seq<char>|
        holds_name(after, a, name) && holds_name(after, b, name) implies a == b by {
        assert(holds_name(sessions, a, name) && holds_name(sessions, b, name));
    }
}

/// A chat line reaches every authenticated session whose endpoint is open,
/// behind what already waited there. A session whose endpoint is closed is
/// reported and stays as it was, and so does every session without a name.
/// The registry stays consistent, with the same sessions.
pub proof fn lemma_broadcast_isolates_failures(sessions: Sessions, msg: MessageView)
    requires
        consistent(sessions),
    ensures
        consistent(broadcast(sessions, msg)),
        broadcast(sessions, msg).dom() == sessions.dom(),
        forall|id: u64|
            #[trigger] sessions.contains_key(id) && sessions[id].authenticated()
                && sessions[id].transmitter.open ==> broadcast(
                sessions,
                msg,
            )[id].transmitter.pending == sessions[id].transmitter.pending.push(
                ServerMessageView::Message(msg),
            ),
        forall|id: u64| #[trigger]
            out_of_reach(sessions, id) ==> broadcast(sessions, msg)[id] == sessions[id],
        forall|id: u64|
            #[trigger] sessions.contains_key(id) && !sessions[id].authenticated() ==> broadcast(
                sessions,
                msg,
            )[id] == sessions[id],
{
    let after = broadcast(sessions, msg);
    assert(after.dom() =~= sessions.dom());
    assert forall|a: u64, b: u64, name: Seq<char>|
        holds_name(after, a, name) && holds_name(after, b, name) implies a == b by {
        assert(holds_name(sessions, a, name) && holds_name(sessions, b, name));
    }
}

/// Two chat lines sent one after the other wait on every open endpoint of
/// an authenticated session in that order, behind what waited before.
pub proof fn lemma_broadcast_order(
    sessions: Sessions,
    first: MessageView,
    second: MessageView,
    id: u64,
)
    requires
        sessions.contains_key(id),
        sessions[id].authenticated(),
        sessions[id].transmitter.open,
    ensures
        broadcast(broadcast(sessions, first), second)[id].transmitter.pending
            == sessions[id].transmitter.pending.push(ServerMessageView::Message(first)).push(
            ServerMessageView::Message(second),
        ),
{
}

/// A chat line from a session without a display name is not sent to
/// anybody: the session gets the request to authenticate and nothing else,
/// and every other session stays as it was.
pub proof fn lemma_chat_needs_name(sessions: Sessions, id: u64, body: Seq<char>)
    requires
        consistent(sessions),
        sessions.contains_key(id),
        !sessions[id].authenticated(),
        sessions[id].transmitter.open,
    ensures
        ({
            let after = step(
                sessions,
                id,
                ClientEventView::Frame(ClientMessageView::Message(body)),
            );
            &&& after.dom() == sessions.dom()
            &&& after[id].transmitter.pending == sessions[id].transmitter.pending.push(
                ServerMessageView::Unauthenticated,
            )
            &&& phase_in(after, id) == SessionPhase::Unauthenticated
            &&& forall|other: u64|
                other != id && #[trigger] sessions.contains_key(other) ==> after[other]
                    == sessions[other]
        }),
        forall|recipient: u64|
            !step_refused(
                sessions,
                id,
                ClientEventView::Frame(ClientMessageView::Message(body)),
                recipient,
            ),
{
}

/// Whatever happens on a connection, no endpoint loses or reorders what
/// waits on it: for every session that is live before and after, what waited
/// before still waits, in the same order, in front of what came new.
pub proof fn lemma_events_only_append(
    sessions: Sessions,
    id: u64,
    event: ClientEventView,
    recipient: u64,
)
    requires
        sessions.contains_key(recipient),
        step(sessions, id, event).contains_key(recipient),
    ensures
        sessions[recipient].transmitter.pending.is_prefix_of(
            step(sessions, id, event)[recipient].transmitter.pending,
        ),
        step(sessions, id, event)[recipient].peer_addr == sessions[recipient].peer_addr,
        step(sessions, id, event)[recipient].transmitter.open
            == sessions[recipient].transmitter.open,
{
}

/// The end of one connection, or a frame of it that cannot be decoded,
/// removes that connection's session and touches no other.
pub proof fn lemma_teardown_is_local(sessions: Sessions, id: u64, event: ClientEventView)
    requires
        consistent(sessions),
        event is Closed || event is Malformed,
    ensures
        step(sessions, id, event) == removed(sessions, id),
        phase_in(step(sessions, id, event), id) == SessionPhase::Disconnected,
        forall|other: u64|
            other != id && #[trigger] sessions.contains_key(other) ==> step(
                sessions,
                id,
                event,
            ).contains_key(other) && step(sessions, id, event)[other] == sessions[other],
{
}

/// Whatever happens on a connection, the registry stays consistent.
pub proof fn lemma_step_keeps_consistent(sessions: Sessions, id: u64, event: ClientEventView)
    requires
        consistent(sessions),
    ensures
        consistent(step(sessions, id, event)),
{
    match event {
        ClientEventView::Connected => {
            if !sessions.contains_key(id) {
                lemma_add_round_trip(sessions, newcomer(id));
            }
        },
        ClientEventView::Frame(frame) => {
            if sessions.contains_key(id) {
                match frame {
                    ClientMessageView::Username(name) => {
                        if name_held(sessions, name) {
                            lemma_delivery_is_local(
                                sessions,
                                id,
                                ServerMessageView::UsernameUnavailable,
                            );
                            lemma_remove(sessions, id);
                        } else {
                            lemma_claim_excludes(sessions, id, name);
                            let named = claimed(sessions, id, name);
                            lemma_delivery_is_local(named, id, ServerMessageView::UsernameAccepted);
                            lemma_remove(named, id);
                        }
                    },
                    ClientMessageView::Message(body) => {
                        if sessions[id].authenticated() {
                            lemma_broadcast_isolates_failures(
                                sessions,
                                line_of(sessions, id, body),
                            );
                        } else {
                            lemma_delivery_is_local(
                                sessions,
                                id,
                                ServerMessageView::Unauthenticated,
                            );
                            lemma_remove(sessions, id);
                        }
                    },
                }
            }
        },
        ClientEventView::Malformed => {
            lemma_remove(sessions, id);
        },
        ClientEventView::Closed => {
            lemma_remove(sessions, id);
        },
    }
}

} // verus!

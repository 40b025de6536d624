use rust_chat_app::session::{handle_client_event, ClientEvent, SessionPhase};
use rust_chat_app::state::ServerState;
use rust_chat_app::{ClientMessage, Message, ServerMessage};

fn name(text: &str) -> ClientEvent {
    ClientEvent::Frame(ClientMessage::Username(text.to_string()))
}

fn say(text: &str) -> ClientEvent {
    ClientEvent::Frame(ClientMessage::Message(text.to_string()))
}

fn chat(user: &str, body: &str) -> ServerMessage {
    ServerMessage::Message(Message::new(user.to_string(), body.to_string()))
}

#[test]
fn a_new_connection_is_asked_to_authenticate() {
    let mut state = ServerState::new();
    let outcome = handle_client_event(&mut state, 1, ClientEvent::Connected);
    assert_eq!(outcome.phase, SessionPhase::Unauthenticated);
    assert!(outcome.undelivered.is_empty());
    assert_eq!(state.len(), 1);
    assert_eq!(state.take_outbound(1).unwrap(), vec![ServerMessage::Unauthenticated]);
}

#[test]
fn a_connection_with_a_live_identity_is_turned_away() {
    let mut state = ServerState::new();
    handle_client_event(&mut state, 1, ClientEvent::Connected);
    handle_client_event(&mut state, 1, name("alice"));
    let outcome = handle_client_event(&mut state, 1, ClientEvent::Connected);
    assert_eq!(outcome.phase, SessionPhase::Disconnected);
    assert_eq!(state.len(), 1);
    assert_eq!(state.is_peer_authenticated(1), Ok(true));
    assert_eq!(
        state.take_outbound(1).unwrap(),
        vec![ServerMessage::Unauthenticated, ServerMessage::UsernameAccepted]
    );
}

#[test]
fn chat_before_a_name_gets_the_request_to_authenticate() {
    let mut state = ServerState::new();
    handle_client_event(&mut state, 1, ClientEvent::Connected);
    handle_client_event(&mut state, 2, ClientEvent::Connected);
    handle_client_event(&mut state, 2, name("bob"));
    state.take_outbound(1).unwrap();
    state.take_outbound(2).unwrap();
    let outcome = handle_client_event(&mut state, 1, say("hi"));
    assert_eq!(outcome.phase, SessionPhase::Unauthenticated);
    assert!(outcome.undelivered.is_empty());
    assert_eq!(state.take_outbound(1).unwrap(), vec![ServerMessage::Unauthenticated]);
    assert_eq!(state.take_outbound(2).unwrap(), Vec::<ServerMessage>::new());
}

#[test]
fn end_to_end() {
    let mut state = ServerState::new();
    for id in [1u64, 2, 3] {
        let connected = handle_client_event(&mut state, id, ClientEvent::Connected);
        assert_eq!(connected.phase, SessionPhase::Unauthenticated);
        assert_eq!(state.take_outbound(id).unwrap(), vec![ServerMessage::Unauthenticated]);
    }
    let alice = handle_client_event(&mut state, 1, name("alice"));
    assert_eq!(alice.phase, SessionPhase::Authenticated);
    assert_eq!(state.take_outbound(1).unwrap(), vec![ServerMessage::UsernameAccepted]);
    let bob = handle_client_event(&mut state, 2, name("bob"));
    assert_eq!(bob.phase, SessionPhase::Authenticated);
    assert_eq!(state.take_outbound(2).unwrap(), vec![ServerMessage::UsernameAccepted]);

    let hello = handle_client_event(&mut state, 1, say("hello"));
    assert_eq!(hello.phase, SessionPhase::Authenticated);
    assert!(hello.undelivered.is_empty());
    assert_eq!(state.take_outbound(1).unwrap(), vec![chat("alice", "hello")]);
    assert_eq!(state.take_outbound(2).unwrap(), vec![chat("alice", "hello")]);
    assert_eq!(state.take_outbound(3).unwrap(), Vec::<ServerMessage>::new());

    let late = handle_client_event(&mut state, 3, name("alice"));
    assert_eq!(late.phase, SessionPhase::Unauthenticated);
    assert!(late.undelivered.is_empty());
    assert_eq!(state.take_outbound(3).unwrap(), vec![ServerMessage::UsernameUnavailable]);
    assert_eq!(state.is_peer_authenticated(3), Ok(false));
    assert_eq!(state.get_peer(1).unwrap().username().unwrap(), "alice");
}

#[test]
fn a_named_session_may_claim_another_name() {
    let mut state = ServerState::new();
    handle_client_event(&mut state, 1, ClientEvent::Connected);
    handle_client_event(&mut state, 1, name("alice"));
    state.take_outbound(1).unwrap();
    let same = handle_client_event(&mut state, 1, name("alice"));
    assert_eq!(same.phase, SessionPhase::Authenticated);
    assert_eq!(state.take_outbound(1).unwrap(), vec![ServerMessage::UsernameUnavailable]);
    let other = handle_client_event(&mut state, 1, name("alicia"));
    assert_eq!(other.phase, SessionPhase::Authenticated);
    assert_eq!(state.take_outbound(1).unwrap(), vec![ServerMessage::UsernameAccepted]);
    handle_client_event(&mut state, 1, say("hi"));
    assert_eq!(state.take_outbound(1).unwrap(), vec![chat("alicia", "hi")]);
}

#[test]
fn the_end_of_the_transport_removes_the_session() {
    let mut state = ServerState::new();
    handle_client_event(&mut state, 1, ClientEvent::Connected);
    handle_client_event(&mut state, 1, name("alice"));
    let closed = handle_client_event(&mut state, 1, ClientEvent::Closed);
    assert_eq!(closed.phase, SessionPhase::Disconnected);
    assert!(closed.undelivered.is_empty());
    assert_eq!(state.len(), 0);
    assert!(state.is_username_available("alice"));
    let again = handle_client_event(&mut state, 1, ClientEvent::Closed);
    assert_eq!(again.phase, SessionPhase::Disconnected);
    assert_eq!(state.len(), 0);
}

#[test]
fn a_malformed_frame_removes_the_session() {
    let mut state = ServerState::new();
    handle_client_event(&mut state, 1, ClientEvent::Connected);
    handle_client_event(&mut state, 2, ClientEvent::Connected);
    let outcome = handle_client_event(&mut state, 1, ClientEvent::Malformed);
    assert_eq!(outcome.phase, SessionPhase::Disconnected);
    assert_eq!(state.len(), 1);
    assert!(state.get_peer(1).is_none());
    assert_eq!(state.get_peer(2).unwrap().peer_addr(), 2);
}

#[test]
fn a_frame_for_an_absent_session_changes_nothing() {
    let mut state = ServerState::new();
    handle_client_event(&mut state, 1, ClientEvent::Connected);
    let claim = handle_client_event(&mut state, 9, name("alice"));
    assert_eq!(claim.phase, SessionPhase::Disconnected);
    assert!(claim.undelivered.is_empty());
    let line = handle_client_event(&mut state, 9, say("hi"));
    assert_eq!(line.phase, SessionPhase::Disconnected);
    assert_eq!(state.len(), 1);
    assert!(state.is_username_available("alice"));
    assert_eq!(state.take_outbound(1).unwrap(), vec![ServerMessage::Unauthenticated]);
}

#[test]
fn a_refused_reply_tears_the_session_down() {
    let mut state = ServerState::new();
    handle_client_event(&mut state, 1, ClientEvent::Connected);
    handle_client_event(&mut state, 2, ClientEvent::Connected);
    assert_eq!(state.hang_up(1), Ok(()));
    let line = handle_client_event(&mut state, 1, say("hi"));
    assert_eq!(line.phase, SessionPhase::Disconnected);
    assert_eq!(line.undelivered, vec![1]);
    assert!(state.get_peer(1).is_none());
    assert_eq!(state.len(), 1);

    assert_eq!(state.hang_up(2), Ok(()));
    let claim = handle_client_event(&mut state, 2, name("bob"));
    assert_eq!(claim.phase, SessionPhase::Disconnected);
    assert_eq!(claim.undelivered, vec![2]);
    assert_eq!(state.len(), 0);
    assert!(state.is_username_available("bob"));
}

#[test]
fn a_chat_line_reports_closed_endpoints_and_goes_on() {
    let mut state = ServerState::new();
    for (id, user) in [(1u64, "a"), (2, "b"), (3, "c")] {
        handle_client_event(&mut state, id, ClientEvent::Connected);
        handle_client_event(&mut state, id, name(user));
        state.take_outbound(id).unwrap();
    }
    assert_eq!(state.hang_up(2), Ok(()));
    let outcome = handle_client_event(&mut state, 1, say("m"));
    assert_eq!(outcome.phase, SessionPhase::Authenticated);
    assert_eq!(outcome.undelivered, vec![2]);
    assert_eq!(state.take_outbound(1).unwrap(), vec![chat("a", "m")]);
    assert_eq!(state.take_outbound(3).unwrap(), vec![chat("a", "m")]);
    assert_eq!(state.len(), 3);
}

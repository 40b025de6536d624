use rust_chat_app::client::{authenticated_after, capture_input, outgoing, usable_input};
use rust_chat_app::error::RegistryError;
use rust_chat_app::outbox::Outbox;
use rust_chat_app::peer::Peer;
use rust_chat_app::{ClientMessage, Message, ServerMessage};

#[test]
fn message_new_keeps_both_texts() {
    let msg = Message::new("alice".to_string(), "hello".to_string());
    assert_eq!(msg.username, "alice");
    assert_eq!(msg.message, "hello");
    let copy = msg.clone();
    assert_eq!(copy, msg);
}

#[test]
fn server_and_client_messages_clone_to_equals() {
    let line = ServerMessage::Message(Message::new("a".to_string(), "b".to_string()));
    assert_eq!(line.clone(), line);
    assert_eq!(ServerMessage::UsernameAccepted.clone(), ServerMessage::UsernameAccepted);
    assert_ne!(ServerMessage::UsernameAccepted, ServerMessage::UsernameUnavailable);
    let claim = ClientMessage::Username("a".to_string());
    assert_eq!(claim.clone(), claim);
    assert_ne!(claim, ClientMessage::Message("a".to_string()));
}

#[test]
fn errors_describe_themselves() {
    assert_eq!(RegistryError::NotFound.describe(), "peer should be in list");
    assert_eq!(RegistryError::IdentityInUse.describe(), "peer is already in list");
    assert_eq!(RegistryError::NameTaken.describe(), "username is not available");
    assert_eq!(RegistryError::Unauthenticated.describe(), "username should exist");
    assert_eq!(RegistryError::DeliveryFailure.describe(), "could not send message to rx");
}

#[test]
fn an_outbox_is_first_in_first_out() {
    let mut outbox = Outbox::new();
    assert!(outbox.is_open());
    assert_eq!(outbox.len(), 0);
    assert_eq!(outbox.send(ServerMessage::Unauthenticated), Ok(()));
    assert_eq!(outbox.send(ServerMessage::UsernameAccepted), Ok(()));
    assert_eq!(outbox.len(), 2);
    assert_eq!(
        outbox.drain(),
        vec![ServerMessage::Unauthenticated, ServerMessage::UsernameAccepted]
    );
    assert_eq!(outbox.len(), 0);
    assert!(outbox.is_open());
    assert_eq!(outbox.drain(), Vec::<ServerMessage>::new());
}

#[test]
fn a_closed_outbox_takes_nothing() {
    let mut outbox = Outbox::new();
    assert_eq!(outbox.send(ServerMessage::Unauthenticated), Ok(()));
    outbox.close();
    assert!(!outbox.is_open());
    assert_eq!(outbox.len(), 0);
    assert_eq!(outbox.send(ServerMessage::UsernameAccepted), Err(RegistryError::DeliveryFailure));
    assert_eq!(outbox.drain(), Vec::<ServerMessage>::new());
}

#[test]
fn a_peer_holds_what_it_was_made_of() {
    let mut peer = Peer::new(Outbox::new(), 42, Some("alice".to_string()));
    assert_eq!(peer.peer_addr(), 42);
    assert_eq!(peer.username().unwrap(), "alice");
    assert!(peer.is_authenticated());
    assert_eq!(peer.request_authentication(), Ok(()));
    assert_eq!(peer.deliver(ServerMessage::UsernameAccepted), Ok(()));
    assert_eq!(peer.transmitter().len(), 2);
    assert_eq!(
        peer.take_outbound(),
        vec![ServerMessage::Unauthenticated, ServerMessage::UsernameAccepted]
    );
    peer.hang_up();
    assert_eq!(peer.request_authentication(), Err(RegistryError::DeliveryFailure));
    assert_eq!(peer.peer_addr(), 42);
    assert_eq!(peer.username().unwrap(), "alice");
    let anonymous = Peer::new(Outbox::new(), 1, None);
    assert!(!anonymous.is_authenticated());
    assert!(anonymous.username().is_none());
}

#[test]
fn input_is_trimmed() {
    assert_eq!(capture_input("  hello world \n"), Some("hello world".to_string()));
    assert_eq!(capture_input("hi"), Some("hi".to_string()));
    assert_eq!(capture_input("\thi\r\n"), Some("hi".to_string()));
}

#[test]
fn empty_input_is_dropped() {
    assert_eq!(capture_input(""), None);
    assert_eq!(capture_input("\n"), None);
    assert_eq!(capture_input("  \t \r\n"), None);
    assert_eq!(usable_input(""), None);
    assert_eq!(usable_input(" "), Some(" ".to_string()));
    assert_eq!(usable_input("x"), Some("x".to_string()));
}

#[test]
fn input_becomes_a_claim_until_authenticated() {
    assert_eq!(outgoing(false, "alice".to_string()), ClientMessage::Username("alice".to_string()));
    assert_eq!(outgoing(true, "hello".to_string()), ClientMessage::Message("hello".to_string()));
}

#[test]
fn the_client_follows_the_server() {
    let line = ServerMessage::Message(Message::new("a".to_string(), "b".to_string()));
    assert!(authenticated_after(false, &ServerMessage::UsernameAccepted));
    assert!(authenticated_after(true, &ServerMessage::UsernameAccepted));
    assert!(!authenticated_after(true, &ServerMessage::UsernameUnavailable));
    assert!(!authenticated_after(false, &ServerMessage::UsernameUnavailable));
    assert!(!authenticated_after(true, &ServerMessage::Unauthenticated));
    assert!(authenticated_after(true, &line));
    assert!(!authenticated_after(false, &line));
}

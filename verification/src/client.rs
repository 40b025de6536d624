//! The decisions of the client side: what a line typed by the user becomes,
//! and what the client believes about its own standing after each message
//! from the server.

use vstd::prelude::*;
use crate::{ClientMessage, ClientMessageView, ServerMessage};

verus! {

/// The text that `str::trim` keeps of `text`: `text` without the white
/// space at its start and at its end, where white space is what Unicode
/// calls `White_Space`.
pub uninterp spec fn trimmed(text: Seq<char>) -> Seq<char>;

/// Calls `str::trim` of the standard library. The contract claims that the
/// result is a function of the text alone, and gives that function the name
/// [`trimmed`]; it claims nothing else about it.
#[verifier::external_body]
fn trim_line(line: &str) -> (kept: &str)
    ensures
        kept@ == trimmed(line@),
{
    line.trim()
}

/// What is sent for a trimmed line: nothing if the line is empty, else the
/// line itself.
pub fn usable_input(kept: &str) -> (input: Option<String>)
    ensures
        kept@.len() == 0 <==> input is None,
        input matches Some(text) ==> text@ == kept@,
{
    if kept.is_empty() {
        None
    } else {
        Some(kept.to_owned())
    }
}

/// What is sent for a line as the user typed it: the line without the white
/// space around it, or nothing if no more than white space was typed.
pub fn capture_input(line: &str) -> (input: Option<String>)
    ensures
        trimmed(line@).len() == 0 <==> input is None,
        input matches Some(text) ==> text@ == trimmed(line@),
{
    usable_input(trim_line(line))
}

/// The frame for a line of input: a chat line once the client is
/// authenticated, a claim of a display name before.
pub fn outgoing(authenticated: bool, input: String) -> (frame: ClientMessage)
    ensures
        frame@ == if authenticated {
            ClientMessageView::Message(input@)
        } else {
            ClientMessageView::Username(input@)
        },
{
    if authenticated {
        ClientMessage::Message(input)
    } else {
        ClientMessage::Username(input)
    }
}

/// Whether the client is authenticated after `msg` arrived: an accepted
/// name makes it so, a refused name or a request to authenticate makes it
/// not so, and a chat line changes nothing.
pub fn authenticated_after(authenticated: bool, msg: &ServerMessage) -> (now: bool)
    ensures
        now == match *msg {
            ServerMessage::Message(_) => authenticated,
            ServerMessage::UsernameAccepted => true,
            ServerMessage::UsernameUnavailable => false,
            ServerMessage::Unauthenticated => false,
        },
{
    match msg {
        ServerMessage::Message(_) => authenticated,
        ServerMessage::UsernameAccepted => true,
        ServerMessage::UsernameUnavailable => false,
        ServerMessage::Unauthenticated => false,
    }
}

} // verus!

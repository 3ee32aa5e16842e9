//! The receiver flow: what the listener loop does with each thing the
//! socket hands it.
//!
//! The loop itself lives in the embedding application, since receiving
//! blocks on the transport. Each iteration's outcome — a datagram's bytes
//! or a transport failure — is handed to [`listener_step`], and the
//! returned action says exactly what the iteration does: forward the
//! decoded text to the event sink, discard the datagram silently, or log
//! the failure. Every action continues the loop; no outcome of a receive
//! ever ends it.

use vstd::prelude::*;
use vstd::utf8::*;

verus! {

/// The port of the fixed local endpoint the listener binds.
pub const LISTEN_PORT: u16 = 8884;

/// The name under which a decoded payload is forwarded to the event sink.
pub const FORWARD_EVENT_NAME: &'static str = "udp-message";

/// What one iteration of the receive loop produced.
#[derive(Debug)]
pub enum RecvEvent {
    /// A datagram arrived, already truncated by the receive call to the
    /// bytes that fit the receive buffer.
    Datagram(Vec<u8>),
    /// The receive itself failed: a transient transport-level error.
    Failure,
}

/// What the loop does with it.
#[derive(Debug, PartialEq, Eq)]
pub enum ListenerAction {
    /// Forward this text to the event sink under
    /// [`FORWARD_EVENT_NAME`].
    Forward(String),
    /// Drop the datagram silently: its bytes are not text.
    Discard,
    /// Log the transport failure. The loop goes on; there is no action
    /// that ends it.
    Log,
}

/// Relies on `String::from_utf8`: it returns the string of the given
/// bytes exactly when they are valid UTF-8, and its error otherwise.
#[verifier::external_body]
fn bytes_to_text(bytes: Vec<u8>) -> (r: Option<String>)
    ensures
        r is Some <==> valid_utf8(bytes@),
        r matches Some(s) ==> s@ == decode_utf8(bytes@),
{
    match String::from_utf8(bytes) {
        Ok(s) => Some(s),
        Err(_) => None,
    }
}

/// Decides one iteration of the receive loop.
///
/// A datagram whose bytes are valid UTF-8 is forwarded as exactly the
/// text they decode to; any other datagram is discarded without further
/// effect; a transport failure is logged. No event ends the loop.
pub fn listener_step(event: RecvEvent) -> (action: ListenerAction)
    ensures
        (match event {
            RecvEvent::Datagram(bytes) => {
                if valid_utf8(bytes@) {
                    action matches ListenerAction::Forward(text) && text@ == decode_utf8(bytes@)
                } else {
                    action is Discard
                }
            },
            RecvEvent::Failure => action is Log,
        }),
{
    match event {
        RecvEvent::Datagram(bytes) => {
            match bytes_to_text(bytes) {
                Some(text) => ListenerAction::Forward(text),
                None => ListenerAction::Discard,
            }
        },
        RecvEvent::Failure => ListenerAction::Log,
    }
}

} // verus!

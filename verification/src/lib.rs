//! Relay of named scalar animation parameters ("blendshapes") over a
//! best-effort datagram transport.
//!
//! The crate covers the two pure flows of the relay: turning a batch of
//! named values into a sequence of independently addressed wire messages
//! (one datagram per entry), and deciding what to do with each inbound
//! datagram of the listener loop. The sockets themselves are driven by the
//! embedding application; everything that can be stated and proved about
//! the bytes and the decisions lives here.

use vstd::prelude::*;

pub mod codec;
pub mod listener;
pub mod sender;

verus! {

/// Size in bytes of the receive buffer of the listener; an inbound
/// datagram longer than this is truncated to this many bytes.
pub const RECV_BUFFER_LEN: usize = 1024;

} // verus!

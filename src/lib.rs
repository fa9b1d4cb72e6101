//! A bridge between a chat-platform gateway that connects to us over a
//! duplex socket and the callbacks of an application: typed protocol
//! events, outbound commands, keyword routing, handler dispatch order and
//! the per-connection session rules.
use vstd::prelude::*;

pub mod api;
pub mod bot;
pub mod context;
pub mod dispatch;
pub mod event;
pub mod handshake;
pub mod json;
pub mod keyword;
pub mod segment;
pub mod session;

verus! {

} // verus!

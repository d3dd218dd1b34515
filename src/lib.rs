//! A text-only duplex transport over a WebSocket-style frame channel.
//!
//! [`WsTransport`] keeps the decisions of the read loop: it answers every
//! `Ping` with a `Pong` carrying the same payload, turns `Binary` frames into
//! text when they are valid UTF-8, and drops `Pong` and `Close` frames. The
//! loop itself (offering frames to the channel, flushing it, reading from it)
//! is run by the caller, who reports each outcome back as a [`ReadEvent`] and
//! performs the [`ReadAction`] that comes out.

mod frame;
pub mod laws;
mod transport;

pub use frame::{CloseData, Frame};
pub use transport::{ReadAction, ReadEvent, WriteState, WsTransport};

//! HTTP/2 framing, stream state and flow control.
//!
//! The crate holds the decisions of an HTTP/2 endpoint: how frames are laid out on the wire, how
//! streams open and close, how flow control windows move, and what a connection does next. It
//! performs no I/O. Where an operation depends on the transport, it is split into functions that
//! say what to do and functions that take what the transport answered.

pub mod buf;
pub mod client;
pub mod client_laws;
pub mod error;
pub mod frame;
pub mod fuzz_bridge;
pub mod header;
pub mod hpack;
pub mod message;
pub mod proto;
pub mod server;
pub mod uri;

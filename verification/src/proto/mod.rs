//! The protocol: streams, flow control, pings, settings and the connection as a whole.

pub mod connection;
pub mod connection_laws;
pub mod delimited;
pub mod framed_write;
pub mod laws;
pub mod ping_pong;
pub mod settings;
pub mod state;
pub mod state_laws;
pub mod stream_laws;
pub mod streams;
pub mod writer_laws;

pub use self::connection::Connection;
pub use self::framed_write::FramedWrite;
pub use self::ping_pong::PingPong;
pub use self::settings::Settings;
pub use self::streams::Streams;

use vstd::prelude::*;

verus! {

/// The payload of a PING frame.
pub type PingPayload = [u8; 8];

/// The size of a flow control window.
pub type WindowSize = u32;

/// The window that streams and connections start with unless the settings say otherwise.
pub const DEFAULT_INITIAL_WINDOW_SIZE: u32 = 65_535;

/// The largest window that there can be.
pub const MAX_WINDOW_SIZE: u32 = 0x7fff_ffff;

/// Whether a value is there yet.
#[derive(Debug, PartialEq, Eq, Structural)]
pub enum Async<T> {
    Ready(T),
    NotReady,
}

/// Whether the transport took a frame.
#[derive(Clone, Copy, Debug, PartialEq, Eq, Structural)]
pub enum AsyncSink {
    Ready,
    NotReady,
}

/// The side of the connection, as a value.
#[derive(Clone, Copy, Debug, PartialEq, Eq, Structural)]
pub enum DynPeer {
    Client,
    Server,
}

/// The side of the connection, as a type.
pub trait Peer {
    spec fn spec_is_server() -> bool;

    /// True for the server.
    fn is_server() -> (r: bool)
        ensures
            r == Self::spec_is_server(),
    ;

    /// The side as a value.
    fn dyn_peer() -> (r: DynPeer)
        ensures
            r == if Self::spec_is_server() {
                DynPeer::Server
            } else {
                DynPeer::Client
            },
    ;
}

} // verus!

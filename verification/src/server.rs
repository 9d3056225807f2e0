//! The server side of a connection.

use crate::proto;
use vstd::prelude::*;

verus! {

/// Marker type indicating a server peer
#[derive(Clone, Copy, Debug, PartialEq, Eq, Structural)]
pub struct Peer;

impl proto::Peer for Peer {
    open spec fn spec_is_server() -> bool {
        true
    }

    fn is_server() -> (r: bool) {
        true
    }

    fn dyn_peer() -> (r: proto::DynPeer) {
        proto::DynPeer::Server
    }
}

} // verus!

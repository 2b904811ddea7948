//! Host-facing identifier type.
//!
//! The host names overlay participants either by a stable peer identifier or
//! by a multi-layered network address, both as plain text.

use vstd::prelude::*;

verus! {

/// A node as the host names it: by peer identifier or by address, in text.
#[derive(Debug, Clone, PartialEq, Eq, Hash)]
pub enum NodeId {
    /// A peer identifier in the overlay's base58 convention.
    Peer { peer_id: String },
    /// A multi-layered address, with an optional `/p2p/<peer-id>` tail.
    Address { address: String },
}

impl NodeId {
    /// The text the identifier carries, whichever variant it is.
    pub open spec fn text(&self) -> Seq<char> {
        match self {
            NodeId::Peer { peer_id } => peer_id@,
            NodeId::Address { address } => address@,
        }
    }
}

} // verus!

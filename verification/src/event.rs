//! Lifecycle events the node reports to its host.

use vstd::prelude::*;
use crate::message::{
    InboundProtocolRequest, InboundProtocolResponse, OutboundProtocolRequest,
    OutboundProtocolResponse,
};
use crate::types::NodeId;

verus! {

/// A lifecycle notification, delivered to the host in the order the driver
/// processed the causes.
#[derive(Debug, Clone, PartialEq, Eq)]
pub enum Event {
    /// A listener yielded an address the node is reachable on.
    ListeningOn { address: String },
    /// All required listeners and relay reservations are in place.
    Ready,
    /// A connection to the node was established.
    Connected { node: NodeId },
    /// A connection to the node was closed.
    Disconnected { node: NodeId },
    /// A relayed connection was upgraded to a direct one.
    ConnectionUpgraded { node: NodeId },
    /// An outgoing connection attempt failed.
    ConnectionError { node: NodeId, cause: String },
    /// A request arrived and awaits an application response.
    InboundRequest { sender: NodeId, request: InboundProtocolRequest },
    /// A response arrived for an earlier outbound request.
    InboundResponse { sender: NodeId, response: InboundProtocolResponse },
    /// A request was handed to the overlay for sending.
    OutboundRequest { receiver: NodeId, request: OutboundProtocolRequest },
    /// A response was delivered into its reply channel.
    OutboundResponse { receiver: NodeId, response: OutboundProtocolResponse },
    /// Something failed that the host must see.
    Error { cause: String },
}

} // verus!

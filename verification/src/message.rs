//! Request-response protocol messages.
//!
//! Each message names the application protocol it travels on and carries an
//! opaque payload.  Inbound messages and outbound responses also carry the
//! correlation id of the exchange they belong to.

use vstd::prelude::*;

verus! {

/// A request received from a peer, awaiting an application response.
#[derive(Debug, Clone, PartialEq, Eq)]
pub struct InboundProtocolRequest {
    /// The application protocol the request arrived on.
    pub protocol: String,
    /// The opaque request payload.
    pub bytes: Vec<u8>,
    /// The exchange's correlation id, to be echoed by the response.
    pub id: String,
}

/// A response received from a peer to an earlier outbound request.
#[derive(Debug, Clone, PartialEq, Eq)]
pub struct InboundProtocolResponse {
    /// The application protocol the response arrived on.
    pub protocol: String,
    /// The opaque response payload.
    pub bytes: Vec<u8>,
    /// The correlation id of the exchange being answered.
    pub id: String,
}

/// A request this node sends to a peer.
#[derive(Debug, Clone, PartialEq, Eq)]
pub struct OutboundProtocolRequest {
    /// The application protocol to send on.
    pub protocol: String,
    /// The opaque request payload.
    pub bytes: Vec<u8>,
}

/// A response this node sends for an earlier inbound request.
#[derive(Debug, Clone, PartialEq, Eq)]
pub struct OutboundProtocolResponse {
    /// The application protocol to answer on.
    pub protocol: String,
    /// The opaque response payload.
    pub bytes: Vec<u8>,
    /// The correlation id of the inbound request being answered.
    pub id: String,
}

/// An outbound message: either a fresh request or a response to an inbound
/// request.
#[derive(Debug, Clone, PartialEq, Eq)]
pub enum OutboundProtocolMessage {
    Request(OutboundProtocolRequest),
    Response(OutboundProtocolResponse),
}

impl OutboundProtocolMessage {
    /// A fresh request on `protocol` carrying `bytes`.
    pub fn new_request(protocol: String, bytes: Vec<u8>) -> (r: Self)
        ensures
            r matches OutboundProtocolMessage::Request(m) && m.protocol@ == protocol@ && m.bytes@
                == bytes@,
    {
        Self::Request(OutboundProtocolRequest { protocol, bytes })
    }

    /// The response to `request`, carrying `bytes`: it answers on the
    /// request's protocol and echoes the request's correlation id.
    pub fn new_response(request: InboundProtocolRequest, bytes: Vec<u8>) -> (r: Self)
        ensures
            r matches OutboundProtocolMessage::Response(m) && m.protocol@ == request.protocol@
                && m.bytes@ == bytes@ && m.id@ == request.id@,
    {
        Self::Response(
            OutboundProtocolResponse { protocol: request.protocol, bytes, id: request.id },
        )
    }
}

} // verus!

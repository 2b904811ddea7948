//! Control plane of a peer-to-peer overlay node.
//!
//! The node sits on a multi-protocol overlay network and is driven by a host
//! through intents (dial, disconnect, send, close), while lifecycle events
//! flow back out.  This crate holds the verified core of that control plane:
//! the relay reservation state machine, the listener registry, the
//! response-channel correlation table, reconnect policy, identifier parsing,
//! and the driver's decision logic.  The overlay library itself (transports,
//! connections, the wire codec) is an external collaborator reached through a
//! small set of trusted declarations.

pub mod behaviour;
pub mod bytes;
pub mod config;
pub mod driver;
pub mod event;
pub mod host;
pub mod keys;
pub mod laws;
pub mod message;
pub mod node;
pub mod relay;
pub mod table;
pub mod types;

pub use config::ReconnectPolicy;

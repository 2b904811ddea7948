//! Plain value types exchanged with host runtimes.
//!
//! Hosts that embed the node (mobile runtimes, CLIs) speak in these types:
//! byte-stream reads and writes, stream frames, and seed material of
//! flexible length that is normalized before use.

use vstd::prelude::*;
use crate::bytes::{fitted, FitIntoArr};
use crate::config;
use crate::types::NodeId;

verus! {

/// One read handed to a stream consumer.
#[derive(Debug, Clone, PartialEq, Eq)]
pub enum StreamRead {
    /// Bytes were read.
    Bytes(Vec<u8>),
    /// The stream ended.
    EOS,
    /// Reading failed.
    Failed(String),
}

/// The outcome of one write handed back to a stream producer.
#[derive(Debug, Clone, PartialEq, Eq)]
pub enum StreamWrite {
    /// The bytes were written.
    Done,
    /// The stream was closed.
    EOS,
    /// Writing failed.
    Failed(String),
}

/// A framed message on a byte stream.
#[derive(Debug, Clone, PartialEq, Eq)]
pub enum StreamMessage {
    /// A frame from the given node.
    Frame(NodeId, Vec<u8>),
    /// The node's stream ended.
    EOS(NodeId),
}

/// An Ed25519 secret key as the host supplies it: bytes of any length,
/// normalized to 32 bytes before use.
#[derive(Debug, Clone)]
pub enum SecretKey {
    Ed25519(Vec<u8>),
}

/// An Ed25519 public key as the host supplies it.
#[derive(Debug, Clone)]
pub enum PublicKey {
    Ed25519(Vec<u8>),
}

/// The node identity as the host supplies it, with flexible-length key
/// material.
#[derive(Debug, Clone)]
pub enum Identity {
    Random,
    Seed(Vec<u8>),
    Keypair(SecretKey),
}

impl Identity {
    /// Normalize host-supplied identity material to fixed 32-byte form:
    /// short seeds and keys are left-padded with zeros, long ones truncated.
    pub fn into_base(self) -> (r: config::Identity)
        ensures
            (self matches Identity::Random ==> r is Random),
            (self matches Identity::Seed(v) ==> r matches config::Identity::Seed(a) && a@ == fitted(
                v@,
                32,
            )),
            (self matches Identity::Keypair(SecretKey::Ed25519(v)) ==> r matches
                config::Identity::Keypair(k) && k matches config::SecretKey::Ed25519(a) && a@
                == fitted(v@, 32)),
    {
        match self {
            Identity::Random => config::Identity::Random,
            Identity::Seed(v) => config::Identity::Seed(v.fit_into_arr()),
            Identity::Keypair(SecretKey::Ed25519(v)) => config::Identity::Keypair(
                config::SecretKey::Ed25519(v.fit_into_arr()),
            ),
        }
    }
}

/// The node configuration as a host runtime supplies it.
#[derive(Debug, Clone)]
pub struct Config {
    /// The identity material, of flexible length.
    pub identity: Identity,
    /// Request-response protocol names the node serves.
    pub message_protocols: Vec<String>,
    /// Byte-stream protocol names the node serves.
    pub stream_protocols: Vec<String>,
    /// Multi-layered addresses of circuit relays.
    pub relay_addresses: Vec<String>,
    /// What to do when a connection is lost.
    pub reconnect_policy: config::ReconnectPolicy,
    /// Idle connection timeout in milliseconds; `0` disables it.
    pub idle_connection_timeout: u64,
    /// Verbosity of the log output.
    pub log_level: config::LogLevel,
}

impl Default for Config {
    /// A random identity, no protocols, no relays, reconnect always, a
    /// fifteen-second idle timeout, and logging at `Info`.
    fn default() -> (r: Self)
        ensures
            r.identity is Random,
            r.message_protocols@ == Seq::<String>::empty(),
            r.stream_protocols@ == Seq::<String>::empty(),
            r.relay_addresses@ == Seq::<String>::empty(),
            r.reconnect_policy == config::ReconnectPolicy::Always,
            r.idle_connection_timeout == 15000u64,
            r.log_level == config::LogLevel::Info,
    {
        Config {
            identity: Identity::Random,
            message_protocols: Vec::new(),
            stream_protocols: Vec::new(),
            relay_addresses: Vec::new(),
            reconnect_policy: config::ReconnectPolicy::Always,
            idle_connection_timeout: 15000,
            log_level: config::LogLevel::Info,
        }
    }
}

impl Config {
    /// Normalize the host configuration to the core's form: the identity is
    /// brought to fixed 32-byte material, everything else carries over.
    pub fn into_base(self) -> (r: config::Config)
        ensures
            (self.identity matches Identity::Seed(v) ==> r.identity matches
                config::Identity::Seed(a) && a@ == fitted(v@, 32)),
            (self.identity matches Identity::Random ==> r.identity is Random),
            (self.identity matches Identity::Keypair(SecretKey::Ed25519(v)) ==> r.identity
                matches config::Identity::Keypair(config::SecretKey::Ed25519(a)) && a@ == fitted(
                v@,
                32,
            )),
            r.msg_protocols@ == self.message_protocols@,
            r.stream_protocols@ == self.stream_protocols@,
            r.relay_addrs@ == self.relay_addresses@,
            r.reconn_policy == self.reconnect_policy,
            r.idle_conn_timeout == self.idle_connection_timeout,
    {
        config::Config {
            identity: self.identity.into_base(),
            msg_protocols: self.message_protocols,
            stream_protocols: self.stream_protocols,
            relay_addrs: self.relay_addresses,
            reconn_policy: self.reconnect_policy,
            idle_conn_timeout: self.idle_connection_timeout,
        }
    }
}

impl PublicKey {
    /// Normalize a host-supplied public key to fixed 32-byte form.
    pub fn into_base(self) -> (r: config::PublicKey)
        ensures
            (self matches PublicKey::Ed25519(v) ==> r matches config::PublicKey::Ed25519(a) && a@
                == fitted(v@, 32)),
    {
        match self {
            PublicKey::Ed25519(v) => config::PublicKey::Ed25519(v.fit_into_arr()),
        }
    }
}

} // verus!

//! Node configuration: identity material, protocol lists, relay addresses,
//! reconnect policy, and logging preferences.

use vstd::prelude::*;

verus! {

/// Reconnect policy applied when a connection to a peer or relay is lost.
#[derive(Debug, Clone, Copy, PartialEq, Eq, Structural)]
pub enum ReconnectPolicy {
    /// Never reconnect: the first disconnect is terminal.
    Never,
    /// Spend at most the given number of consecutive attempts, then give up.
    Attempts(u8),
    /// Reconnect indefinitely.
    Always,
}

/// An Ed25519 secret key, as 32 raw bytes.
#[derive(Debug, Clone, Copy)]
pub enum SecretKey {
    Ed25519([u8; 32]),
}

/// An Ed25519 public key, as 32 raw bytes.
#[derive(Debug, Clone, Copy)]
pub enum PublicKey {
    Ed25519([u8; 32]),
}

/// The cryptographic identity the node starts with.
#[derive(Debug, Clone, Copy)]
pub enum Identity {
    /// Generate a fresh random keypair at startup.
    Random,
    /// Derive the keypair from a fixed 32-byte seed.
    Seed([u8; 32]),
    /// Use the given secret key.
    Keypair(SecretKey),
}

/// Verbosity of the log output.
#[derive(Debug, Clone, Copy, PartialEq, Eq, Structural)]
pub enum LogLevel {
    Off,
    Error,
    Warn,
    Info,
    Debug,
    Trace,
}

/// Preferences for the log subscriber the host installs.
#[derive(Debug, Clone)]
pub struct LogConfig {
    /// Whether log lines may use ANSI colours.
    pub with_ansi: bool,
    /// The most verbose level that is emitted.
    pub level_filter: LogLevel,
}

impl Default for LogConfig {
    /// Colourful output at `Info` level.
    fn default() -> (r: Self)
        ensures
            r.with_ansi == true,
            r.level_filter == LogLevel::Info,
    {
        LogConfig { with_ansi: true, level_filter: LogLevel::Info }
    }
}

/// Startup configuration of a node; consumed once at construction.
#[derive(Debug, Clone)]
pub struct Config {
    /// The identity the node runs under.
    pub identity: Identity,
    /// Request-response protocol names the node serves, for example `/echo/1`.
    pub msg_protocols: Vec<String>,
    /// Byte-stream protocol names the node serves.
    pub stream_protocols: Vec<String>,
    /// Multi-layered addresses of circuit relays, each ending in a
    /// `/p2p/<peer-id>` component; invalid entries are silently dropped.
    pub relay_addrs: Vec<String>,
    /// What to do when a connection to a relay or peer is lost.
    pub reconn_policy: ReconnectPolicy,
    /// Idle connection timeout in milliseconds; `0` disables it.
    pub idle_conn_timeout: u64,
}

impl Default for Config {
    /// A random identity, no protocols, no relays, reconnect always,
    /// and no idle timeout.
    fn default() -> (r: Self)
        ensures
            r.identity is Random,
            r.msg_protocols@ == Seq::<String>::empty(),
            r.stream_protocols@ == Seq::<String>::empty(),
            r.relay_addrs@ == Seq::<String>::empty(),
            r.reconn_policy == ReconnectPolicy::Always,
            r.idle_conn_timeout == 0u64,
    {
        Config {
            identity: Identity::Random,
            msg_protocols: Vec::new(),
            stream_protocols: Vec::new(),
            relay_addrs: Vec::new(),
            reconn_policy: ReconnectPolicy::Always,
            idle_conn_timeout: 0,
        }
    }
}

} // verus!

//! Per-relay finite state machine.
//!
//! A relay record tracks one circuit relay: its multi-layered address and the
//! progress of the connection / reservation lifecycle.  The status moves along
//! the diagram
//! `Disconnected(n) -> Connecting -> Connected -> PendingReservation -> Relaying`,
//! falling back to `Disconnected(n+1)` or `Unreachable` on failures, as the
//! reconnect policy dictates.

use vstd::prelude::*;
use crate::config::ReconnectPolicy;

verus! {

/// Lifecycle status of a relay connection.
#[derive(Debug, Clone, PartialEq, Eq)]
pub enum RelayStatus {
    /// The relay was given up on; terminal.
    Unreachable,
    /// Not connected; the payload counts consecutive failed connection attempts.
    Disconnected(u8),
    /// A connection is being established; the relay and this node exchange
    /// observed addresses through the identify protocol.
    Connecting { told_observed_addr: bool, learnt_observed_addr: bool },
    /// Both observed addresses were exchanged; the connection is usable.
    Connected,
    /// A circuit listener was requested on the relay; awaiting the reservation.
    PendingReservation,
    /// The relay accepted the reservation and forwards traffic for this node.
    Relaying,
}

/// Progress report for a relay in `Connecting` status.
#[derive(Debug, Clone, PartialEq, Eq)]
pub enum RelayConnectionUpdate {
    /// The identify protocol sent our observed address to the relay.
    SentObservedAddr,
    /// The identify protocol learnt this node's observed address from the relay.
    LearntObservedAddr(String),
}

/// How a connection to a peer was established.
#[derive(Debug, Clone, PartialEq, Eq)]
pub enum ConnectionStatus {
    /// Connected through a relay circuit.
    Circuit(String),
    /// Connected directly.
    Direct(String),
}

impl ConnectionStatus {
    /// The address of the connection, circuit or direct.
    pub fn address(&self) -> (r: &String)
        ensures
            r@ == self.address_spec(),
    {
        match self {
            ConnectionStatus::Circuit(addr) => addr,
            ConnectionStatus::Direct(addr) => addr,
        }
    }

    /// The address carried by either variant.
    pub open spec fn address_spec(&self) -> Seq<char> {
        match self {
            ConnectionStatus::Circuit(addr) => addr@,
            ConnectionStatus::Direct(addr) => addr@,
        }
    }
}

/// One relay record: its address and the status of the reservation lifecycle.
#[derive(Debug, Clone, PartialEq, Eq)]
pub struct Relay {
    /// The relay's configured multi-layered address, in canonical text form.
    pub addr: String,
    /// Where the relay stands in the connection / reservation lifecycle.
    pub status: RelayStatus,
}

/// The status that `set_disconnected` assigns, given the previous status and
/// the reconnect policy.  `Unreachable` is terminal: a relay given up on
/// stays given up on.  Otherwise `Never` gives up at once, `Always` resets
/// the attempt counter, and `Attempts(max)` counts consecutive failures out
/// of a `Disconnected` state and gives up once `max` attempts were spent.
pub open spec fn disconnected_status(pre: RelayStatus, policy: ReconnectPolicy) -> RelayStatus {
    if pre is Unreachable {
        RelayStatus::Unreachable
    } else {
        match policy {
            ReconnectPolicy::Never => RelayStatus::Unreachable,
            ReconnectPolicy::Attempts(max_attempts) => {
                let conn_attempts: int = match pre {
                    RelayStatus::Disconnected(i) => i + 1,
                    _ => 1,
                };
                if conn_attempts < max_attempts {
                    RelayStatus::Disconnected(conn_attempts as u8)
                } else {
                    RelayStatus::Unreachable
                }
            },
            ReconnectPolicy::Always => RelayStatus::Disconnected(0),
        }
    }
}

/// The status that `update_connecting` assigns: outside of `Connecting` the
/// update is ignored; within it the corresponding flag is set, and once both
/// flags hold the status collapses to `Connected`.
pub open spec fn connecting_status(pre: RelayStatus, update: RelayConnectionUpdate) -> RelayStatus {
    match pre {
        RelayStatus::Connecting { told_observed_addr, learnt_observed_addr } => {
            let told = told_observed_addr || update is SentObservedAddr;
            let learnt = learnt_observed_addr || update is LearntObservedAddr;
            if told && learnt {
                RelayStatus::Connected
            } else {
                RelayStatus::Connecting { told_observed_addr: told, learnt_observed_addr: learnt }
            }
        },
        _ => pre,
    }
}

impl Relay {
    /// A relay record never holds an attempt counter that could overflow:
    /// counters only ever reach one less than a `u8` policy bound.
    pub open spec fn wf(&self) -> bool {
        self.status matches RelayStatus::Disconnected(n) ==> n < 255
    }

    /// The relay's configured address.
    pub open spec fn addr_spec(&self) -> Seq<char> {
        self.addr@
    }

    /// The relay's current status.
    pub open spec fn status_spec(&self) -> RelayStatus {
        self.status
    }

    /// A fresh record for a relay at `addr`; no connection attempt was made yet.
    pub fn new(addr: String) -> (r: Relay)
        ensures
            r.wf(),
            r.addr_spec() == addr@,
            r.status_spec() == RelayStatus::Disconnected(0),
    {
        Relay { addr, status: RelayStatus::Disconnected(0) }
    }

    /// The relay's address, for dialing and circuit listening.
    pub fn addr(&self) -> (r: &String)
        ensures
            r@ == self.addr_spec(),
    {
        &self.addr
    }

    /// Give up on this relay for good.
    pub fn set_unreachable(&mut self)
        ensures
            final(self).wf(),
            final(self).status_spec() == RelayStatus::Unreachable,
            final(self).addr == old(self).addr,
    {
        self.status = RelayStatus::Unreachable;
    }

    /// Record a lost connection or failed attempt, applying the reconnect
    /// policy.  A relay already given up on stays `Unreachable` for good.
    pub fn set_disconnected(&mut self, reconn_policy: &ReconnectPolicy)
        requires
            old(self).wf(),
        ensures
            final(self).wf(),
            final(self).status_spec() == disconnected_status(old(self).status_spec(), *reconn_policy),
            final(self).addr == old(self).addr,
    {
        let gone = match self.status {
            RelayStatus::Unreachable => true,
            _ => false,
        };
        if !gone {
            self.status = match reconn_policy {
                ReconnectPolicy::Never => RelayStatus::Unreachable,
                ReconnectPolicy::Attempts(max_attempts) => {
                    let conn_attempts: u8 = match self.status {
                        RelayStatus::Disconnected(i) => i + 1,
                        _ => 1,
                    };
                    if conn_attempts < *max_attempts {
                        RelayStatus::Disconnected(conn_attempts)
                    } else {
                        RelayStatus::Unreachable
                    }
                },
                ReconnectPolicy::Always => RelayStatus::Disconnected(0),
            };
        }
    }

    /// A dial was issued; begin the observed-address exchange.
    pub fn set_connecting(&mut self)
        ensures
            final(self).wf(),
            final(self).status_spec() == (RelayStatus::Connecting {
                told_observed_addr: false,
                learnt_observed_addr: false,
            }),
            final(self).addr == old(self).addr,
    {
        self.status = RelayStatus::Connecting {
            told_observed_addr: false,
            learnt_observed_addr: false,
        };
    }

    /// Record identify-protocol progress while connecting; collapses to
    /// `Connected` once both observed addresses were exchanged.
    pub fn update_connecting(&mut self, update: RelayConnectionUpdate)
        requires
            old(self).wf(),
        ensures
            final(self).wf(),
            final(self).status_spec() == connecting_status(old(self).status_spec(), update),
            final(self).addr == old(self).addr,
    {
        match self.status {
            RelayStatus::Connecting { told_observed_addr, learnt_observed_addr } => {
                let told: bool = match update {
                    RelayConnectionUpdate::SentObservedAddr => true,
                    RelayConnectionUpdate::LearntObservedAddr(_) => told_observed_addr,
                };
                let learnt: bool = match update {
                    RelayConnectionUpdate::SentObservedAddr => learnt_observed_addr,
                    RelayConnectionUpdate::LearntObservedAddr(_) => true,
                };
                self.status = if told && learnt {
                    RelayStatus::Connected
                } else {
                    RelayStatus::Connecting {
                        told_observed_addr: told,
                        learnt_observed_addr: learnt,
                    }
                };
            },
            _ => {},
        }
    }

    /// A circuit listener was installed on the relay; awaiting the reservation.
    pub fn set_pending_reservation(&mut self)
        ensures
            final(self).wf(),
            final(self).status_spec() == RelayStatus::PendingReservation,
            final(self).addr == old(self).addr,
    {
        self.status = RelayStatus::PendingReservation;
    }

    /// The relay accepted the reservation; it now forwards traffic.
    pub fn set_relaying(&mut self)
        ensures
            final(self).wf(),
            final(self).status_spec() == RelayStatus::Relaying,
            final(self).addr == old(self).addr,
    {
        self.status = RelayStatus::Relaying;
    }

    /// Whether the relay was given up on.
    pub fn is_unreachable(&self) -> (r: bool)
        ensures
            r == (self.status_spec() is Unreachable),
    {
        match self.status {
            RelayStatus::Unreachable => true,
            _ => false,
        }
    }

    /// Whether the observed-address exchange completed.
    pub fn is_connected(&self) -> (r: bool)
        ensures
            r == (self.status_spec() is Connected),
    {
        match self.status {
            RelayStatus::Connected => true,
            _ => false,
        }
    }

    /// Whether the relay holds an accepted reservation.
    pub fn is_relaying(&self) -> (r: bool)
        ensures
            r == (self.status_spec() is Relaying),
    {
        match self.status {
            RelayStatus::Relaying => true,
            _ => false,
        }
    }

    /// Whether the relay is disconnected (waiting for a dial or given up counting).
    pub fn is_disconnected(&self) -> (r: bool)
        ensures
            r == (self.status_spec() is Disconnected),
    {
        match self.status {
            RelayStatus::Disconnected(_) => true,
            _ => false,
        }
    }
}

} // verus!

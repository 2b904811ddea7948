//! The driver: the node's single control task.
//!
//! The driver multiplexes three input sources — overlay swarm reports, host
//! intents, and an internal self-message queue — and owns all mutable state:
//! the relay records, the listener registry, and the response-channel table.
//! Every handler is a pure decision step: it mutates the owned state and
//! returns, in order, the events to notify the host of and the overlay
//! actions the host side must perform.  Overlay calls that return a result
//! (dial, circuit listen, response delivery) are completed by feeding the
//! outcome back into the matching `on_*_result` handler.

use vstd::prelude::*;
use vstd::string::StringExecFns;
use crate::config::{Config, ReconnectPolicy};
use crate::event::Event;
use crate::message::{OutboundProtocolMessage, OutboundProtocolResponse, InboundProtocolRequest,
    InboundProtocolResponse};
use crate::node::NodeId;
use crate::node;
use crate::relay::{Relay, RelayStatus, RelayConnectionUpdate};
use crate::table::{ResponseChannelTable, ResponseKey};
use crate::types;

verus! {

/// Whether `protocols` lists a protocol whose text is `protocol`.
pub open spec fn protocol_listed(protocols: Seq<String>, protocol: Seq<char>) -> bool {
    exists|i: int| 0 <= i < protocols.len() && (#[trigger] protocols[i])@ == protocol
}

/// Whether `relays` holds a record keyed by `peer`.
pub open spec fn relay_listed(relays: Seq<(String, Relay)>, peer: Seq<char>) -> bool {
    exists|i: int| 0 <= i < relays.len() && (#[trigger] relays[i]).0@ == peer
}

/// The position of the record keyed by `peer`; meaningful when listed.
pub open spec fn relay_pos_in(relays: Seq<(String, Relay)>, peer: Seq<char>) -> int {
    choose|i: int| 0 <= i < relays.len() && (#[trigger] relays[i]).0@ == peer
}

/// Only the record keyed by `peer` changed, to `status`, keeping its address.
pub open spec fn relays_updated(pre: Seq<(String, Relay)>, post: Seq<(String, Relay)>, peer: Seq<char>, status: RelayStatus) -> bool {
    exists|i: int|
        0 <= i < pre.len() && (#[trigger] pre[i]).0@ == peer && post == pre.update(
            i,
            (pre[i].0, (Relay { addr: pre[i].1.addr, status: status })),
        )
}

/// A host command, as the facade forwards it to the driver.
#[derive(Debug, Clone, PartialEq, Eq)]
pub enum Intent {
    /// Send a request or response to one node.
    DirectMessage { peer: NodeId, message: OutboundProtocolMessage },
    /// Establish a connection to one node.
    Dial(NodeId),
    /// Drop the connection to one node.
    Disconnect(NodeId),
    /// Shut the node down.
    Close,
}

/// Deferred work the driver posts to itself.
#[derive(Debug, Clone, PartialEq, Eq)]
pub enum Message {
    /// Every required listener has yielded an address; dial the relays.
    ListenersReady,
    /// The relay finished the observed-address exchange; install the circuit
    /// listener on it.
    RelayConnected(String),
    /// An internally-originated intent, used for delayed dial retries.
    Intent(Intent),
}

/// What kind of listener a registry entry tracks.
#[derive(Debug, Clone, PartialEq, Eq)]
pub enum ListenerType {
    TCP,
    QUIC,
    WebSocket,
    /// A circuit listener bound to the relay with the given peer identifier.
    CircuitRelay(String),
}

/// The outcome of a dial call the host side performed.
#[derive(Debug, Clone, PartialEq, Eq)]
pub enum DialOutcome {
    /// The dial was accepted.
    Dialed,
    /// The dial failed in a way worth retrying (aborted, denied, transport).
    Recoverable(String),
    /// The dial failed for good; the payload is the cause.
    Fatal(String),
}

/// An overlay operation the host side must perform on the driver's behalf.
#[derive(Debug, Clone, PartialEq, Eq)]
pub enum Action {
    /// Dial the node; report the outcome through `on_dial_result`.
    Dial(NodeId),
    /// Dial the relay at `addr`; report through `on_dial_result` under
    /// `NodeId::Peer(peer)`.
    DialRelay { peer: String, addr: String },
    /// Drop the connection to the peer.
    DisconnectPeer(String),
    /// Drop every connection; used during shutdown.
    DisconnectAll,
    /// Remove the listener with the given handle.
    RemoveListener(u64),
    /// Install a circuit listener on the relay's address; report through
    /// `on_relay_listen_result`.
    ListenOnRelay { peer: String, addr: String },
    /// Enqueue the request on the protocol's behaviour.
    SendRequest { peer: String, protocol: String, bytes: Vec<u8> },
    /// Deliver the response into the reply channel with the given handle;
    /// report through `on_response_delivered`.
    SendResponse { channel: u64, receiver: NodeId, response: OutboundProtocolResponse },
    /// Wait `delay_secs`, then hand the dial intent back through
    /// `send_dial_intent` without a delay.
    ScheduleDial { node: NodeId, delay_secs: u64 },
    /// Record a discovered peer address.
    AddPeerAddress { peer: String, addr: String },
    /// Forget an expired external address.
    RemoveExternalAddress { addr: String },
}

/// One ordered element of a handler's output: an event for the host or an
/// action for the overlay.
#[derive(Debug, Clone, PartialEq, Eq)]
pub enum Effect {
    Event(Event),
    Action(Action),
}

/// What the overlay reported, translated to plain values by the host side.
#[derive(Debug, Clone, PartialEq, Eq)]
pub enum SwarmInput {
    /// A connection to `peer` was established.
    ConnectionEstablished { peer: String },
    /// A connection closed; `cause` is set when it closed unexpectedly.
    ConnectionClosed { peer: String, address: String, cause: Option<String> },
    /// An outgoing connection attempt failed.
    OutgoingConnectionError { peer: Option<String>, error: String },
    /// A listener yielded a new address.
    NewListenAddr { listener_id: u64, address: String },
    /// A listener shut down; `is_error` when it failed.
    ListenerClosed { listener_id: u64, is_error: bool },
    /// Local discovery found peers at addresses.
    MdnsDiscovered { peers: Vec<(String, String)> },
    /// Local discovery records expired.
    MdnsExpired { addrs: Vec<String> },
    /// The relay accepted this node's reservation.
    ReservationAccepted { relay_peer: String },
    /// The identify protocol sent our observed address to the peer.
    IdentifySent { peer: String },
    /// The identify protocol learnt this node's observed address.
    IdentifyReceived { peer: String, observed_addr: String },
    /// A request arrived; `channel` is the handle of its one-shot reply
    /// channel, assigned by the host side.
    MessageRequest { protocol: String, peer: String, request_id: String, bytes: Vec<u8>, channel: u64 },
    /// A response arrived for an earlier outbound request.
    MessageResponse { protocol: String, peer: String, request_id: String, bytes: Vec<u8> },
    /// The request-response layer failed to receive a message.
    InboundFailure { peer: String, error: String },
    /// The request-response layer failed to send a message.
    OutboundFailure { peer: String, error: String },
}

/// Why a send was refused.
#[derive(Debug, Clone, PartialEq, Eq)]
pub enum SendError {
    /// No behaviour is registered for the protocol.
    MessageProtocolNotFound(String),
    /// The address carries no peer identifier.
    InvalidAddress(String),
    /// No reply channel is stored for the exchange.
    ResponseChannelNotFound(ResponseKey),
    /// The reply channel was dropped before the response was delivered.
    ResponseChannelClosed(ResponseKey),
}

/// The error text of a refused send, as shown to the host.
pub open spec fn send_error_text(e: SendError) -> Seq<char> {
    match e {
        SendError::MessageProtocolNotFound(p) => "Message protocol "@ + p@ + " was not found"@,
        SendError::InvalidAddress(a) => "Address "@ + a@ + " is invalid"@,
        SendError::ResponseChannelNotFound(k) => "Response channel for ("@ + k.node.text() + ", "@
            + k.protocol@ + ", "@ + k.id@ + ") was not found"@,
        SendError::ResponseChannelClosed(k) => "Response channel for ("@ + k.node.text() + ", "@
            + k.protocol@ + ", "@ + k.id@ + ") is closed"@,
    }
}

impl SendError {
    /// Render the error for the host, exactly as `send_error_text` states.
    pub fn message(&self) -> (r: String)
        ensures
            r@ == send_error_text(*self),
    {
        match self {
            SendError::MessageProtocolNotFound(p) => String::from_str("Message protocol ").concat(
                p.as_str(),
            ).concat(" was not found"),
            SendError::InvalidAddress(a) => String::from_str("Address ").concat(a.as_str()).concat(
                " is invalid",
            ),
            SendError::ResponseChannelNotFound(k) => String::from_str("Response channel for (")
                .concat(k.node.text_string().as_str()).concat(", ").concat(
                k.protocol.as_str(),
            ).concat(", ").concat(k.id.as_str()).concat(") was not found"),
            SendError::ResponseChannelClosed(k) => String::from_str("Response channel for (")
                .concat(k.node.text_string().as_str()).concat(", ").concat(
                k.protocol.as_str(),
            ).concat(", ").concat(k.id.as_str()).concat(") is closed"),
        }
    }
}

/// The error text of a dial given up on.
pub open spec fn unreachable_text(node_text: Seq<char>, cause: Seq<char>) -> Seq<char> {
    "Peer "@ + node_text + " cannot be dialed: "@ + cause
}

/// The error text of a request-response failure.
pub open spec fn message_failure_text(inbound: bool, peer: Seq<char>, cause: Seq<char>) -> Seq<
    char,
> {
    if inbound {
        "Error while receiving a message from "@ + peer + ": "@ + cause
    } else {
        "Error while sending a message to "@ + peer + ": "@ + cause
    }
}

/// The state bag the driver exclusively owns.
#[derive(Debug)]
pub struct Driver {
    /// Cleared by `Close`; the loop exits once it is down and inputs drained.
    pub is_active: bool,
    /// No further host intents are accepted.
    pub intents_closed: bool,
    /// No further self-messages are enqueued.
    pub self_closed: bool,
    /// Deferred work, drained in order even while closing.
    pub self_queue: Vec<Message>,
    /// Whether the TCP listener is still required before `ListenersReady`.
    pub required_tcp: bool,
    /// Whether the QUIC listener is still required.
    pub required_quic: bool,
    /// Whether the WebSocket listener is still required.
    pub required_ws: bool,
    /// Listeners that were requested but have not yielded an address yet.
    pub tracked_listeners: Vec<(u64, ListenerType)>,
    /// Listeners that yielded at least one address.
    pub listeners: Vec<u64>,
    /// One record per configured relay, keyed by the peer identifier parsed
    /// from the relay's address.
    pub relays: Vec<(String, Relay)>,
    /// Reply channels of inbound requests awaiting their response.
    pub response_channels: ResponseChannelTable,
    /// The request-response protocols the node serves.
    pub protocols: Vec<String>,
    /// What to do when a connection is lost.
    pub reconn_policy: ReconnectPolicy,
}

impl Driver {
    /// The peer key of relay record `i`.
    pub open spec fn relay_key_at(&self, i: int) -> Seq<char> {
        self.relays@[i].0@
    }

    /// Whether a relay record exists for the peer.
    pub open spec fn has_relay(&self, peer: Seq<char>) -> bool {
        relay_listed(self.relays@, peer)
    }

    /// Relay keys are unique (one record per peer) and every record is
    /// well-formed; the response table is well-formed.
    pub open spec fn wf(&self) -> bool {
        &&& forall|i: int, j: int|
            0 <= i < j < self.relays@.len() ==> self.relay_key_at(i) != self.relay_key_at(j)
        &&& forall|i: int| 0 <= i < self.relays@.len() ==> (#[trigger] self.relays@[i].1).wf()
        &&& self.response_channels.wf()
    }

    /// The position of the relay record for `peer`, if any.
    fn relay_index(&self, peer: &String) -> (r: Option<usize>)
        ensures
            (r matches Some(i) ==> i < self.relays@.len() && self.relay_key_at(i as int) == peer@),
            (r is None ==> !self.has_relay(peer@)),
    {
        let mut i: usize = 0;
        while i < self.relays.len()
            invariant
                i <= self.relays@.len(),
                forall|j: int| 0 <= j < i ==> (#[trigger] self.relays@[j]).0@ != peer@,
            decreases self.relays@.len() - i,
        {
            if self.relays[i].0.eq(peer) {
                return Some(i);
            }
            i = i + 1;
        }
        None
    }

    /// Whether a behaviour is registered for the protocol.
    pub open spec fn knows_protocol(&self, protocol: Seq<char>) -> bool {
        protocol_listed(self.protocols@, protocol)
    }

    fn protocol_known(&self, protocol: &String) -> (r: bool)
        ensures
            r == self.knows_protocol(protocol@),
    {
        let mut i: usize = 0;
        while i < self.protocols.len()
            invariant
                i <= self.protocols@.len(),
                forall|j: int| 0 <= j < i ==> (#[trigger] self.protocols@[j])@ != protocol@,
            decreases self.protocols@.len() - i,
        {
            if self.protocols[i].eq(protocol) {
                return true;
            }
            i = i + 1;
        }
        false
    }

    /// Enqueue deferred work, unless the self-message queue was closed.
    pub fn send_self_message(&mut self, message: Message)
        ensures
            old(self).self_closed ==> *final(self) == *old(self),
            !old(self).self_closed ==> *final(self) == (Driver {
                self_queue: final(self).self_queue,
                ..*old(self)
            }) && final(self).self_queue@ == old(self).self_queue@.push(message),
    {
        if !self.self_closed {
            self.self_queue.push(message);
        }
    }

    /// Take the oldest self-message, if any; deferred work drains in order
    /// even after the queue was closed to new work.
    pub fn pop_self_message(&mut self) -> (r: Option<Message>)
        ensures
            old(self).self_queue@.len() == 0 ==> r is None && *final(self) == *old(self),
            old(self).self_queue@.len() > 0 ==> (r matches Some(m) && m
                == old(self).self_queue@[0] && *final(self) == (Driver {
                self_queue: final(self).self_queue,
                ..*old(self)
            }) && final(self).self_queue@ == old(self).self_queue@.drop_first()),
    {
        if self.self_queue.len() == 0 {
            None
        } else {
            let m = self.self_queue.remove(0);
            proof {
                assert(final(self).self_queue@ =~= old(self).self_queue@.drop_first());
            }
            Some(m)
        }
    }

    /// The relay record stored for `peer`; meaningful when `has_relay`.
    pub open spec fn relay_of(&self, peer: Seq<char>) -> Relay {
        self.relays@[self.relay_pos(peer)].1
    }

    /// The position of the relay record for `peer`; meaningful when `has_relay`.
    pub open spec fn relay_pos(&self, peer: Seq<char>) -> int {
        relay_pos_in(self.relays@, peer)
    }

    /// In a well-formed driver, the record at `i` is what `relay_of` finds.
    pub proof fn lemma_relay_at(&self, i: int)
        requires
            self.wf(),
            0 <= i < self.relays@.len(),
        ensures
            self.has_relay(self.relay_key_at(i)),
            self.relay_pos(self.relay_key_at(i)) == i,
            self.relay_of(self.relay_key_at(i)) == self.relays@[i].1,
    {
        let k = self.relay_key_at(i);
        assert(self.has_relay(k));
        let j = self.relay_pos(k);
        if i < j {
            assert(self.relay_key_at(i) != self.relay_key_at(j));
        } else if j < i {
            assert(self.relay_key_at(j) != self.relay_key_at(i));
        }
    }

    /// Well-formedness is kept by any step that leaves the relay records
    /// unchanged and the response table well-formed.
    pub proof fn lemma_wf_frame(pre: Driver, post: Driver)
        requires
            pre.wf(),
            post.relays@ == pre.relays@,
            post.response_channels.wf(),
        ensures
            post.wf(),
    {
        assert forall|i: int, j: int|
            0 <= i < j < post.relays@.len() implies post.relay_key_at(i) != post.relay_key_at(
            j,
        ) by {
            assert(pre.relay_key_at(i) != pre.relay_key_at(j));
        }
        assert forall|i: int| 0 <= i < post.relays@.len() implies (
        #[trigger] post.relays@[i].1).wf() by {
            assert(post.relays@[i].1 == pre.relays@[i].1);
            assert(pre.relays@[i].1.wf());
        }
    }

    /// Well-formedness is kept by an in-place status change of one relay
    /// record, provided the new record is well-formed and the response table
    /// stays well-formed.
    pub proof fn lemma_relay_update_wf(pre: Driver, post: Driver, i: int)
        requires
            pre.wf(),
            0 <= i < pre.relays@.len(),
            post.relays@ == pre.relays@.update(i, (pre.relays@[i].0, post.relays@[i].1)),
            post.relays@[i].1.wf(),
            post.response_channels.wf(),
        ensures
            post.wf(),
    {
        assert forall|a: int, b: int|
            0 <= a < b < post.relays@.len() implies post.relay_key_at(a) != post.relay_key_at(
            b,
        ) by {
            assert(pre.relay_key_at(a) != pre.relay_key_at(b));
        }
        assert forall|a: int| 0 <= a < post.relays@.len() implies (
        #[trigger] post.relays@[a].1).wf() by {
            if a != i {
                assert(post.relays@[a].1 == pre.relays@[a].1);
                assert(pre.relays@[a].1.wf());
            }
        }
    }

    /// Whether the driver loop should exit: the host closed the node (or the
    /// swarm ended) and both command sources are closed and drained.
    pub fn should_stop(&self, swarm_closed: bool, intents_drained: bool) -> (r: bool)
        ensures
            r == ((swarm_closed || !self.is_active) && (self.intents_closed && intents_drained) && (
            self.self_closed && self.self_queue@.len() == 0)),
    {
        (swarm_closed || !self.is_active) && (self.intents_closed && intents_drained) && (
        self.self_closed && self.self_queue.len() == 0)
    }
}

/// A protocol name the overlay accepts: nonempty, beginning with `/`,
/// printable ASCII throughout.
pub open spec fn protocol_name_ok(s: Seq<char>) -> bool {
    &&& s.len() > 0
    &&& s[0] == '/'
    &&& forall|i: int| 0 <= i < s.len() ==> 32 <= (#[trigger] s[i]) as int <= 126
}

/// Whether `s` is a protocol name the overlay accepts.
pub fn valid_protocol_name(s: &String) -> (r: bool)
    ensures
        r == protocol_name_ok(s@),
{
    let n = s.as_str().unicode_len();
    if n == 0 {
        return false;
    }
    if s.as_str().get_char(0) != '/' {
        return false;
    }
    let mut i: usize = 0;
    while i < n
        invariant
            i <= n == s@.len(),
            forall|j: int| 0 <= j < i ==> 32 <= (#[trigger] s@[j]) as int <= 126,
        decreases n - i,
    {
        let c = s.as_str().get_char(i);
        let v = c as u32;
        if v < 32 || v > 126 {
            return false;
        }
        i = i + 1;
    }
    true
}

/// The node could not be constructed.
#[derive(Debug, Clone, PartialEq, Eq)]
pub enum BuildError {
    /// A configured protocol name breaks the overlay's naming rules.
    InvalidProtocol(String),
    /// None of the transport listeners could be established.
    NoListeners,
}

/// A relay record as `Driver::new` derives it from one configured address:
/// the address canonicalized, the key parsed from its `/p2p` tail, and the
/// status fresh.
pub open spec fn relay_from_config(key: Seq<char>, relay: Relay, addrs: Seq<String>) -> bool {
    exists|j: int|
        0 <= j < addrs.len() && (#[trigger] addr_canon_of(addrs[j])) == Some(relay.addr@)
            && node::addr_peer_text(relay.addr@) == Some(key) && relay.status == RelayStatus::Disconnected(
            0,
        )
}

/// The canonical form of one configured address.
pub open spec fn addr_canon_of(s: String) -> Option<Seq<char>> {
    node::addr_canon_text(s@)
}

/// Whether the relay table covers one configured address: if it parses and
/// carries a peer identifier, a record under that identifier exists.
pub open spec fn relay_covered(relays: Seq<(String, Relay)>, addr: String) -> bool {
    match node::addr_canon_text(addr@) {
        Some(c) => match node::addr_peer_text(c) {
            Some(p) => exists|a: int| 0 <= a < relays.len() && (#[trigger] relays[a]).0@ == p,
            None => true,
        },
        None => true,
    }
}

/// The tracked-listener entry one bind outcome contributes.
pub open spec fn opt_entry(x: Option<u64>, t: ListenerType) -> Seq<(u64, ListenerType)> {
    match x {
        Some(id) => seq![(id, t)],
        None => Seq::empty(),
    }
}

fn relay_vec_index(relays: &Vec<(String, Relay)>, peer: &String) -> (r: Option<usize>)
    ensures
        (r matches Some(i) ==> i < relays@.len() && relays@[i as int].0@ == peer@),
        (r is None ==> forall|i: int| 0 <= i < relays@.len() ==> (#[trigger] relays@[i].0)@
            != peer@),
{
    let mut i: usize = 0;
    while i < relays.len()
        invariant
            i <= relays@.len(),
            forall|j: int| 0 <= j < i ==> (#[trigger] relays@[j].0)@ != peer@,
        decreases relays@.len() - i,
    {
        if relays[i].0.eq(peer) {
            return Some(i);
        }
        i = i + 1;
    }
    None
}

impl Driver {
    /// Build the driver state from the configuration.  Every protocol name is
    /// validated; relay addresses that do not parse or carry no peer
    /// identifier are silently dropped; at most one relay record is kept per
    /// peer.  An empty protocol list and an empty relay list are accepted.
    pub fn new(config: Config) -> (r: Result<Driver, BuildError>)
        ensures
            (r matches Ok(d) ==> {
                &&& d.wf()
                &&& d.is_active && !d.intents_closed && !d.self_closed
                &&& d.self_queue@.len() == 0
                &&& !d.required_tcp && !d.required_quic && !d.required_ws
                &&& d.tracked_listeners@.len() == 0
                &&& d.listeners@.len() == 0
                &&& d.response_channels.len() == 0
                &&& d.protocols@ == config.msg_protocols@
                &&& d.reconn_policy == config.reconn_policy
                &&& forall|i: int|
                    0 <= i < config.msg_protocols@.len() ==> protocol_name_ok(
                        (#[trigger] config.msg_protocols@[i])@,
                    )
                &&& forall|i: int|
                    0 <= i < d.relays@.len() ==> relay_from_config(
                        d.relay_key_at(i),
                        (#[trigger] d.relays@[i]).1,
                        config.relay_addrs@,
                    )
                &&& forall|j: int|
                    0 <= j < config.relay_addrs@.len() ==> relay_covered(
                        d.relays@,
                        #[trigger] config.relay_addrs@[j],
                    )
                &&& config.relay_addrs@.len() == 0 ==> d.relays@.len() == 0
            }),
            (r matches Err(e) ==> e matches BuildError::InvalidProtocol(p) && exists|i: int|
                0 <= i < config.msg_protocols@.len() && (#[trigger] config.msg_protocols@[i])@ == p@
                    && !protocol_name_ok(p@)),
    {
        let mut i: usize = 0;
        while i < config.msg_protocols.len()
            invariant
                i <= config.msg_protocols@.len(),
                forall|j: int|
                    0 <= j < i ==> protocol_name_ok((#[trigger] config.msg_protocols@[j])@),
            decreases config.msg_protocols@.len() - i,
        {
            if !valid_protocol_name(&config.msg_protocols[i]) {
                return Err(BuildError::InvalidProtocol(config.msg_protocols[i].clone()));
            }
            i = i + 1;
        }
        let mut relays: Vec<(String, Relay)> = Vec::new();
        let mut j: usize = 0;
        while j < config.relay_addrs.len()
            invariant
                j <= config.relay_addrs@.len(),
                forall|a: int, b: int|
                    0 <= a < b < relays@.len() ==> (#[trigger] relays@[a]).0@ != (
                    #[trigger] relays@[b]).0@,
                forall|a: int|
                    0 <= a < relays@.len() ==> relay_from_config(
                        (#[trigger] relays@[a]).0@,
                        relays@[a].1,
                        config.relay_addrs@,
                    ),
                forall|b: int|
                    0 <= b < j ==> relay_covered(relays@, #[trigger] config.relay_addrs@[b]),
                config.relay_addrs@.len() == 0 ==> relays@.len() == 0,
            decreases config.relay_addrs@.len() - j,
        {
            let ghost addr_j = config.relay_addrs@[j as int];
            match node::canon_addr_text(config.relay_addrs[j].as_str()) {
                Some(canon) => {
                    match node::peer_of_addr_text(canon.as_str()) {
                        Some(peer) => {
                            match relay_vec_index(&relays, &peer) {
                                Some(i) => {
                                    proof {
                                        assert(relays@[i as int].0@ == peer@);
                                        assert(relay_covered(relays@, addr_j));
                                    }
                                },
                                None => {
                                    let ghost pre = relays@;
                                    let ghost newkey = peer@;
                                    let relay = Relay::new(canon);
                                    relays.push((peer, relay));
                                    proof {
                                        let last = pre.len() as int;
                                        assert(relays@[last].0@ == newkey);
                                        assert(forall|a: int|
                                            0 <= a < pre.len() ==> relays@[a] == pre[a]);
                                        assert(relay_covered(relays@, addr_j));
                                        assert(addr_canon_of(config.relay_addrs@[j as int])
                                            == Some(relays@[last].1.addr@));
                                        assert(relay_from_config(
                                            relays@[last].0@,
                                            relays@[last].1,
                                            config.relay_addrs@,
                                        ));
                                        assert forall|b: int| 0 <= b < j implies relay_covered(
                                            relays@,
                                            #[trigger] config.relay_addrs@[b],
                                        ) by {
                                            assert(relay_covered(pre, config.relay_addrs@[b]));
                                            match addr_canon_of(config.relay_addrs@[b]) {
                                                Some(c) => match node::addr_peer_text(c) {
                                                    Some(p) => {
                                                        let a = choose|a: int|
                                                            0 <= a < pre.len() && (
                                                            #[trigger] pre[a]).0@ == p;
                                                        assert(relays@[a].0@ == p);
                                                    },
                                                    None => {},
                                                },
                                                None => {},
                                            }
                                        }
                                    }
                                },
                            }
                        },
                        None => {
                            proof {
                                assert(relay_covered(relays@, addr_j));
                            }
                        },
                    }
                },
                None => {
                    proof {
                        assert(relay_covered(relays@, addr_j));
                    }
                },
            }
            j = j + 1;
        }
        Ok(
            Driver {
                is_active: true,
                intents_closed: false,
                self_closed: false,
                self_queue: Vec::new(),
                required_tcp: false,
                required_quic: false,
                required_ws: false,
                tracked_listeners: Vec::new(),
                listeners: Vec::new(),
                relays,
                response_channels: ResponseChannelTable::new(),
                protocols: config.msg_protocols,
                reconn_policy: config.reconn_policy,
            },
        )
    }

    /// Record the outcome of the three startup listener binds.  Each
    /// established listener is required before `ListenersReady` and tracked
    /// until it yields an address; a failed bind drops its requirement at
    /// once.  Fails when no listener at all was established.
    pub fn begin_listen(&mut self, tcp: Option<u64>, quic: Option<u64>, ws: Option<u64>) -> (r:
        Result<(), BuildError>)
        requires
            old(self).tracked_listeners@.len() == 0,
        ensures
            (r is Err <==> tcp is None && quic is None && ws is None),
            (r matches Err(e) ==> e is NoListeners && *final(self) == *old(self)),
            (r is Ok ==> {
                &&& *final(self) == (Driver {
                    required_tcp: final(self).required_tcp,
                    required_quic: final(self).required_quic,
                    required_ws: final(self).required_ws,
                    tracked_listeners: final(self).tracked_listeners,
                    ..*old(self)
                })
                &&& final(self).required_tcp == (tcp is Some)
                &&& final(self).required_quic == (quic is Some)
                &&& final(self).required_ws == (ws is Some)
                &&& final(self).tracked_listeners@ == opt_entry(tcp, ListenerType::TCP)
                    + opt_entry(quic, ListenerType::QUIC) + opt_entry(ws, ListenerType::WebSocket)
            }),
    {
        if tcp.is_none() && quic.is_none() && ws.is_none() {
            return Err(BuildError::NoListeners);
        }
        match tcp {
            Some(id) => {
                self.required_tcp = true;
                self.tracked_listeners.push((id, ListenerType::TCP));
            },
            None => {
                self.required_tcp = false;
            },
        }
        match quic {
            Some(id) => {
                self.required_quic = true;
                self.tracked_listeners.push((id, ListenerType::QUIC));
            },
            None => {
                self.required_quic = false;
            },
        }
        match ws {
            Some(id) => {
                self.required_ws = true;
                self.tracked_listeners.push((id, ListenerType::WebSocket));
            },
            None => {
                self.required_ws = false;
            },
        }
        proof {
            assert(self.tracked_listeners@ =~= opt_entry(tcp, ListenerType::TCP) + opt_entry(
                quic,
                ListenerType::QUIC,
            ) + opt_entry(ws, ListenerType::WebSocket));
        }
        Ok(())
    }

    /// Shut down: close both command sources, drop every connection and
    /// listener, and drop the stored reply channels.  Emits no event; the
    /// host observes the shutdown through the disconnects that follow.
    pub fn close(&mut self) -> (effects: Vec<Effect>)
        ensures
            close_post(*old(self), *final(self), effects@),
    {
        let mut effects: Vec<Effect> = Vec::new();
        self.intents_closed = true;
        self.self_closed = true;
        effects.push(Effect::Action(Action::DisconnectAll));
        let mut i: usize = 0;
        while i < self.listeners.len()
            invariant
                i <= self.listeners@.len(),
                effects@.len() == 1 + i,
                effects@[0] == Effect::Action(Action::DisconnectAll),
                forall|j: int|
                    1 <= j < effects@.len() ==> effects@[j] == Effect::Action(
                        Action::RemoveListener(self.listeners@[j - 1]),
                    ),
            decreases self.listeners@.len() - i,
        {
            effects.push(Effect::Action(Action::RemoveListener(self.listeners[i])));
            i = i + 1;
        }
        self.listeners.clear();
        self.response_channels.clear();
        self.is_active = false;
        effects
    }

    /// Drop the connection to `node`: directly for a peer identifier, through
    /// the address's `/p2p` tail otherwise.  An address without a peer
    /// identifier is dropped silently.
    pub fn disconnect(&mut self, node: NodeId) -> (effects: Vec<Effect>)
        ensures
            *final(self) == *old(self),
            disconnect_effects(node, effects@),
    {
        let mut effects: Vec<Effect> = Vec::new();
        match node.peer_text() {
            Some(peer) => {
                effects.push(Effect::Action(Action::DisconnectPeer(peer)));
            },
            None => {},
        }
        effects
    }
}

/// Delay before retrying a failed dial, in seconds.
pub const DELAY_SEC_RETRY_DIAL: u64 = 1;

/// Delay before re-dialing a relay after a lost connection, in seconds.
pub const DELAY_SEC_RECONNECT: u64 = 15;

/// Delay before re-dialing a relay after its circuit listener failed, in
/// seconds: the overlay limits reservations to one every two minutes per
/// peer, so wait out the limit.
pub const DELAY_SEC_RECONNECT_CIRCUIT_RELAY: u64 = 125;

/// Exactly one error event carrying `text`.
pub open spec fn one_error(effects: Seq<Effect>, text: Seq<char>) -> bool {
    effects.len() == 1 && (effects[0] matches Effect::Event(Event::Error { cause }) && cause@
        == text)
}

/// The peer identifier `node` is known by, if any: a `Peer` directly, an
/// `Addr` through its `/p2p/<peer-id>` tail.
pub open spec fn node_peer_text(node: NodeId) -> Option<Seq<char>> {
    match node {
        NodeId::Peer(p) => Some(p@),
        NodeId::Addr(a) => node::addr_peer_text(a@),
    }
}

/// Only the relay record for `peer` changed, to `status`; its address and
/// every other part of the driver state are kept.
pub open spec fn relay_status_set(pre: Driver, post: Driver, peer: Seq<char>, status: RelayStatus) -> bool {
    &&& post == (Driver { relays: post.relays, ..pre })
    &&& relays_updated(pre.relays@, post.relays@, peer, status)
}

/// What a dial intent emits: a relay dial for a known, reachable relay peer;
/// nothing for one given up on; an ordinary dial otherwise.  Nothing changes
/// until the outcome comes back.
pub open spec fn dial_node_effects(d: Driver, node: NodeId, effects: Seq<Effect>) -> bool {
    match node {
        NodeId::Peer(p) => if d.has_relay(p@) {
            if d.relay_of(p@).status is Unreachable {
                effects.len() == 0
            } else {
                effects.len() == 1 && (effects[0] matches Effect::Action(
                    Action::DialRelay { peer, addr },
                ) && peer@ == p@ && addr@ == d.relay_of(p@).addr@)
            }
        } else {
            effects.len() == 1 && effects[0] == Effect::Action(Action::Dial(node))
        },
        NodeId::Addr(_) => effects.len() == 1 && effects[0] == Effect::Action(Action::Dial(node)),
    }
}

/// What a dial outcome does for a node that is no relay: a recoverable
/// failure is retried under policy `Always`, surfaced under `Never`, and —
/// an open question in the design — ignored under `Attempts`; a fatal
/// failure is surfaced at once.
pub open spec fn dial_result_plain(pre: Driver, post: Driver, node: NodeId, outcome: DialOutcome, effects: Seq<Effect>) -> bool {
    &&& post == pre
    &&& match outcome {
        DialOutcome::Dialed => effects.len() == 0,
        DialOutcome::Recoverable(cause) => match pre.reconn_policy {
            ReconnectPolicy::Never => one_error(effects, unreachable_text(node.text(), cause@)),
            ReconnectPolicy::Attempts(_) => effects.len() == 0,
            ReconnectPolicy::Always => effects.len() == 1 && (effects[0] matches Effect::Action(
                Action::ScheduleDial { node: n, delay_secs },
            ) && n == node && delay_secs == DELAY_SEC_RETRY_DIAL),
        },
        DialOutcome::Fatal(cause) => one_error(effects, unreachable_text(node.text(), cause@)),
    }
}

/// What a dial outcome does for a relay peer: success starts the
/// observed-address exchange; a recoverable failure applies the reconnect
/// policy and schedules a retry while the relay is not given up on; a fatal
/// failure marks it unreachable.  Relay dial failures are not surfaced as
/// events: the host observes the absence of `Connected`.
pub open spec fn dial_result_relay(pre: Driver, post: Driver, peer: Seq<char>, outcome: DialOutcome, effects: Seq<Effect>) -> bool {
    match outcome {
        DialOutcome::Dialed => {
            &&& relay_status_set(
                pre,
                post,
                peer,
                (RelayStatus::Connecting { told_observed_addr: false, learnt_observed_addr: false }),
            )
            &&& effects.len() == 0
        },
        DialOutcome::Recoverable(_) => {
            let st = crate::relay::disconnected_status(
                pre.relay_of(peer).status,
                pre.reconn_policy,
            );
            &&& relay_status_set(pre, post, peer, st)
            &&& if st is Unreachable {
                effects.len() == 0
            } else {
                effects.len() == 1 && (effects[0] matches Effect::Action(
                    Action::ScheduleDial { node: n, delay_secs },
                ) && (n matches NodeId::Peer(q) && q@ == peer) && delay_secs
                    == DELAY_SEC_RETRY_DIAL)
            }
        },
        DialOutcome::Fatal(_) => {
            &&& relay_status_set(pre, post, peer, RelayStatus::Unreachable)
            &&& effects.len() == 0
        },
    }
}

/// What a dial outcome does, relay or not.
pub open spec fn dial_result_post(pre: Driver, post: Driver, node: NodeId, outcome: DialOutcome, effects: Seq<Effect>) -> bool {
    match node {
        NodeId::Peer(p) => if pre.has_relay(p@) {
            dial_result_relay(pre, post, p@, outcome, effects)
        } else {
            dial_result_plain(pre, post, node, outcome, effects)
        },
        NodeId::Addr(_) => dial_result_plain(pre, post, node, outcome, effects),
    }
}

/// What a response-delivery outcome emits: the announced response on
/// success, one channel-closed error otherwise.
pub open spec fn response_delivered_effects(receiver: NodeId, response: OutboundProtocolResponse, delivered: bool, effects: Seq<Effect>) -> bool {
    if delivered {
        effects.len() == 1 && (effects[0] matches Effect::Event(
            Event::OutboundResponse { receiver: r, response: m },
        ) && receiver.base_of(r) && m == response)
    } else {
        one_error(
            effects,
            send_error_text(
                SendError::ResponseChannelClosed(
                    (ResponseKey { node: receiver, protocol: response.protocol, id: response.id }),
                ),
            ),
        )
    }
}

/// Whether the tracked-listener registry holds the handle.
pub open spec fn tracked_has(entries: Seq<(u64, ListenerType)>, id: u64) -> bool {
    exists|i: int| 0 <= i < entries.len() && (#[trigger] entries[i]).0 == id
}

/// What `close` does: both command sources closed, the node inactive, every
/// listener removed and reply channel dropped, relays and protocols kept; one
/// disconnect-all action, then one removal per listener, and no event.
pub open spec fn close_post(pre: Driver, post: Driver, effects: Seq<Effect>) -> bool {
    &&& !post.is_active
    &&& post.intents_closed
    &&& post.self_closed
    &&& post.listeners@.len() == 0
    &&& post.response_channels.len() == 0
    &&& (forall|k: crate::table::ResponseKeyV| post.response_channels.get(k) is None)
    &&& post.response_channels.wf()
    &&& post.relays@ == pre.relays@
    &&& post.tracked_listeners@ == pre.tracked_listeners@
    &&& post.protocols@ == pre.protocols@
    &&& post.self_queue@ == pre.self_queue@
    &&& post.reconn_policy == pre.reconn_policy
    &&& post.required_tcp == pre.required_tcp
    &&& post.required_quic == pre.required_quic
    &&& post.required_ws == pre.required_ws
    &&& effects.len() == 1 + pre.listeners@.len()
    &&& effects[0] == Effect::Action(Action::DisconnectAll)
    &&& (forall|j: int|
        1 <= j < effects.len() ==> effects[j] == Effect::Action(
            Action::RemoveListener(pre.listeners@[j - 1]),
        ))
}

/// What `disconnect` emits: one disconnect for the named or embedded peer,
/// nothing when an address has no peer identifier.
pub open spec fn disconnect_effects(node: NodeId, effects: Seq<Effect>) -> bool {
    match node {
        NodeId::Peer(p) => effects.len() == 1 && (effects[0] matches Effect::Action(
            Action::DisconnectPeer(q),
        ) && q@ == p@),
        NodeId::Addr(a) => {
            &&& (node::addr_peer_text(a@) matches Some(t) ==> effects.len() == 1 && (effects[0]
                matches Effect::Action(Action::DisconnectPeer(q)) && q@ == t))
            &&& (node::addr_peer_text(a@) is None ==> effects.len() == 0)
        },
    }
}

impl Driver {
    /// Dial `node`: a known relay peer is dialed at its configured address
    /// unless it was given up on; anything else is dialed directly.  The
    /// outcome is reported back through `on_dial_result`.
    pub fn dial_node(&mut self, node: NodeId) -> (effects: Vec<Effect>)
        requires
            old(self).wf(),
        ensures
            final(self).wf(),
            *final(self) == *old(self),
            dial_node_effects(*old(self), node, effects@),
    {
        let mut effects: Vec<Effect> = Vec::new();
        match &node {
            NodeId::Peer(p) => {
                match self.relay_index(p) {
                    Some(i) => {
                        proof {
                            self.lemma_relay_at(i as int);
                        }
                        if !self.relays[i].1.is_unreachable() {
                            let addr = self.relays[i].1.addr().clone();
                            effects.push(
                                Effect::Action(Action::DialRelay { peer: p.clone(), addr }),
                            );
                        }
                        return effects;
                    },
                    None => {},
                }
            },
            NodeId::Addr(_) => {},
        }
        effects.push(Effect::Action(Action::Dial(node)));
        effects
    }

    /// Apply the outcome of a dial: relay peers advance their state machine
    /// under the reconnect policy; for other nodes a failure is retried or
    /// surfaced as the policy dictates.
    pub fn on_dial_result(&mut self, node: NodeId, outcome: DialOutcome) -> (effects: Vec<Effect>)
        requires
            old(self).wf(),
        ensures
            final(self).wf(),
            dial_result_post(*old(self), *final(self), node, outcome, effects@),
    {
        let mut effects: Vec<Effect> = Vec::new();
        match &node {
            NodeId::Peer(p) => {
                match self.relay_index(p) {
                    Some(i) => {
                        proof {
                            self.lemma_relay_at(i as int);
                        }
                        let ghost pre = *self;
                        match outcome {
                            DialOutcome::Dialed => {
                                let entry = &mut self.relays[i];
                                entry.1.set_connecting();
                            },
                            DialOutcome::Recoverable(_) => {
                                let policy = self.reconn_policy;
                                let entry = &mut self.relays[i];
                                entry.1.set_disconnected(&policy);
                                let retry = !self.relays[i].1.is_unreachable();
                                if retry {
                                    effects.push(
                                        Effect::Action(
                                            Action::ScheduleDial {
                                                node: NodeId::Peer(p.clone()),
                                                delay_secs: DELAY_SEC_RETRY_DIAL,
                                            },
                                        ),
                                    );
                                }
                            },
                            DialOutcome::Fatal(_) => {
                                let entry = &mut self.relays[i];
                                entry.1.set_unreachable();
                            },
                        }
                        proof {
                            let ii = i as int;
                            assert(self.relays@ =~= pre.relays@.update(
                                ii,
                                (pre.relays@[ii].0, (Relay {
                                    addr: pre.relays@[ii].1.addr,
                                    status: self.relays@[ii].1.status,
                                })),
                            ));
                            assert(relay_status_set(pre, *self, p@, self.relays@[ii].1.status));
                            Driver::lemma_relay_update_wf(pre, *self, ii);
                        }
                        return effects;
                    },
                    None => {},
                }
            },
            NodeId::Addr(_) => {},
        }
        match outcome {
            DialOutcome::Dialed => {},
            DialOutcome::Recoverable(cause) => {
                match self.reconn_policy {
                    ReconnectPolicy::Never => {
                        effects.push(
                            Effect::Event(
                                Event::Error {
                                    cause: unreachable_message(&node, cause.as_str()),
                                },
                            ),
                        );
                    },
                    ReconnectPolicy::Attempts(_) => {},
                    ReconnectPolicy::Always => {
                        effects.push(
                            Effect::Action(
                                Action::ScheduleDial {
                                    node,
                                    delay_secs: DELAY_SEC_RETRY_DIAL,
                                },
                            ),
                        );
                    },
                }
            },
            DialOutcome::Fatal(cause) => {
                effects.push(
                    Effect::Event(
                        Event::Error { cause: unreachable_message(&node, cause.as_str()) },
                    ),
                );
            },
        }
        effects
    }

    /// Send a request or a response to `node`.  A request needs a registered
    /// protocol and a peer identifier; a response consumes the stored reply
    /// channel before anything is sent, so a failed send leaves no stale
    /// entry.  Each failure becomes one error event.
    pub fn send_direct_message(&mut self, node: NodeId, message: OutboundProtocolMessage) -> (
        effects: Vec<Effect>)
        requires
            old(self).wf(),
        ensures
            final(self).wf(),
            send_post(*old(self), *final(self), node, message, effects@),
    {
        let mut effects: Vec<Effect> = Vec::new();
        match message {
            OutboundProtocolMessage::Request(req) => {
                if !self.protocol_known(&req.protocol) {
                    let e = SendError::MessageProtocolNotFound(req.protocol);
                    effects.push(Effect::Event(Event::Error { cause: e.message() }));
                    return effects;
                }
                match node.peer_text() {
                    Some(peer) => {
                        effects.push(
                            Effect::Action(
                                Action::SendRequest {
                                    peer,
                                    protocol: req.protocol.clone(),
                                    bytes: req.bytes.clone(),
                                },
                            ),
                        );
                        let receiver = node.to_base();
                        effects.push(Effect::Event(Event::OutboundRequest { receiver, request: req }));
                    },
                    None => {
                        match node {
                            NodeId::Addr(a) => {
                                let e = SendError::InvalidAddress(a);
                                effects.push(Effect::Event(Event::Error { cause: e.message() }));
                            },
                            NodeId::Peer(_) => {},
                        }
                    },
                }
                effects
            },
            OutboundProtocolMessage::Response(resp) => {
                let key = ResponseKey {
                    node: node,
                    protocol: resp.protocol.clone(),
                    id: resp.id.clone(),
                };
                proof {
                    assert(key@ == (crate::table::ResponseKeyV {
                        peer: node is Peer,
                        node_text: node.text(),
                        protocol: resp.protocol@,
                        id: resp.id@,
                    }));
                }
                let ghost mid = *self;
                match self.response_channels.remove(&key) {
                    None => {
                        proof {
                            Driver::lemma_wf_frame(mid, *self);
                        }
                        let e = SendError::ResponseChannelNotFound(key);
                        effects.push(Effect::Event(Event::Error { cause: e.message() }));
                        effects
                    },
                    Some(chan) => {
                        proof {
                            Driver::lemma_wf_frame(mid, *self);
                            assert(self.knows_protocol(resp.protocol@) == mid.knows_protocol(
                                resp.protocol@,
                            ));
                        }
                        if !self.protocol_known(&resp.protocol) {
                            let e = SendError::MessageProtocolNotFound(resp.protocol);
                            effects.push(Effect::Event(Event::Error { cause: e.message() }));
                            return effects;
                        }
                        effects.push(
                            Effect::Action(
                                Action::SendResponse {
                                    channel: chan,
                                    receiver: key.node,
                                    response: resp,
                                },
                            ),
                        );
                        effects
                    },
                }
            },
        }
    }

    /// Report the outcome of a response delivery: delivered responses are
    /// announced to the host, a dropped reply channel becomes one error
    /// event.  No retry either way: the request side has moved on.
    pub fn on_response_delivered(
        &mut self,
        receiver: NodeId,
        response: OutboundProtocolResponse,
        delivered: bool,
    ) -> (effects: Vec<Effect>)
        ensures
            *final(self) == *old(self),
            response_delivered_effects(receiver, response, delivered, effects@),
    {
        let mut effects: Vec<Effect> = Vec::new();
        if delivered {
            let r = receiver.to_base();
            effects.push(Effect::Event(Event::OutboundResponse { receiver: r, response }));
        } else {
            let key = ResponseKey {
                node: receiver,
                protocol: response.protocol,
                id: response.id,
            };
            let e = SendError::ResponseChannelClosed(key);
            effects.push(Effect::Event(Event::Error { cause: e.message() }));
        }
        effects
    }
}

/// Render the text of a dial given up on, exactly as `unreachable_text`.
fn unreachable_message(node: &NodeId, cause: &str) -> (r: String)
    ensures
        r@ == unreachable_text(node.text(), cause@),
{
    String::from_str("Peer ").concat(node.text_string().as_str()).concat(
        " cannot be dialed: ",
    ).concat(cause)
}

/// What `send_direct_message` does.  A request: refused without a registered
/// protocol or a peer identifier, otherwise handed to the overlay and
/// announced, in that order.  A response: the reply channel is removed from
/// the table first; a missing entry or unknown protocol is one error event,
/// otherwise the delivery is handed to the overlay and announced once its
/// outcome comes back.
pub open spec fn send_post(pre: Driver, post: Driver, node: NodeId, message: OutboundProtocolMessage, effects: Seq<Effect>) -> bool {
    match message {
        OutboundProtocolMessage::Request(req) => {
            &&& post == pre
            &&& if !pre.knows_protocol(req.protocol@) {
                one_error(effects, send_error_text(SendError::MessageProtocolNotFound(req.protocol)))
            } else {
                match node_peer_text(node) {
                    Some(p) => {
                        &&& effects.len() == 2
                        &&& (effects[0] matches Effect::Action(
                            Action::SendRequest { peer, protocol, bytes },
                        ) && peer@ == p && protocol@ == req.protocol@ && bytes@ == req.bytes@)
                        &&& (effects[1] matches Effect::Event(
                            Event::OutboundRequest { receiver, request },
                        ) && node.base_of(receiver) && request == req)
                    },
                    None => node matches NodeId::Addr(a) && one_error(
                        effects,
                        send_error_text(SendError::InvalidAddress(a)),
                    ),
                }
            }
        },
        OutboundProtocolMessage::Response(resp) => {
            let kv = (crate::table::ResponseKeyV {
                peer: node is Peer,
                node_text: node.text(),
                protocol: resp.protocol@,
                id: resp.id@,
            });
            &&& post == (Driver { response_channels: post.response_channels, ..pre })
            &&& post.response_channels.get(kv) is None
            &&& (forall|k2: crate::table::ResponseKeyV|
                k2 != kv ==> post.response_channels.get(k2) == pre.response_channels.get(k2))
            &&& match pre.response_channels.get(kv) {
                None => {
                    &&& post.response_channels.len() == pre.response_channels.len()
                    &&& one_error(
                        effects,
                        send_error_text(
                            SendError::ResponseChannelNotFound(
                                (ResponseKey { node, protocol: resp.protocol, id: resp.id }),
                            ),
                        ),
                    )
                },
                Some(chan) => {
                    &&& post.response_channels.len() == pre.response_channels.len() - 1
                    &&& if !pre.knows_protocol(resp.protocol@) {
                        one_error(
                            effects,
                            send_error_text(SendError::MessageProtocolNotFound(resp.protocol)),
                        )
                    } else {
                        effects.len() == 1 && (effects[0] matches Effect::Action(
                            Action::SendResponse { channel, receiver, response },
                        ) && channel == chan && receiver.eq_spec_fn(&node) && response == resp)
                    }
                },
            }
        },
    }
}

/// Whether `m` is an internally-posted dial intent for the peer.
pub open spec fn is_dial_intent_for(m: Message, peer: Seq<char>) -> bool {
    m matches Message::Intent(Intent::Dial(NodeId::Peer(p))) && p@ == peer
}

/// The keys of the relays not given up on, in table order.
pub open spec fn reachable_relay_keys(relays: Seq<(String, Relay)>) -> Seq<Seq<char>>
    decreases relays.len(),
{
    if relays.len() == 0 {
        Seq::empty()
    } else if relays.last().1.status is Unreachable {
        reachable_relay_keys(relays.drop_last())
    } else {
        reachable_relay_keys(relays.drop_last()) + seq![relays.last().0@]
    }
}

/// Whether `ids` holds the listener handle.
pub open spec fn listener_listed(ids: Seq<u64>, id: u64) -> bool {
    exists|i: int| 0 <= i < ids.len() && ids[i] == id
}

/// What `maybe_reconnect_relay` does: nothing for a peer that is no relay;
/// for a relay, the peer is disconnected, the reconnect policy applied, and
/// a delayed re-dial scheduled unless the relay was given up on.
pub open spec fn reconnect_post(pre: Driver, post: Driver, peer: Seq<char>, delay_secs: u64, effects: Seq<Effect>) -> bool {
    if pre.has_relay(peer) {
        let st = crate::relay::disconnected_status(pre.relay_of(peer).status, pre.reconn_policy);
        &&& relay_status_set(pre, post, peer, st)
        &&& effects.len() >= 1
        &&& (effects[0] matches Effect::Action(Action::DisconnectPeer(q)) && q@ == peer)
        &&& if st is Unreachable {
            effects.len() == 1
        } else {
            effects.len() == 2 && (effects[1] matches Effect::Action(
                Action::ScheduleDial { node: n, delay_secs: d },
            ) && (n matches NodeId::Peer(q2) && q2@ == peer) && d == delay_secs)
        }
    } else {
        &&& post == pre
        &&& effects.len() == 0
    }
}

/// What `dial_relays` does: one internally-queued dial intent per relay not
/// given up on, in table order; nothing once the self-message queue closed.
pub open spec fn dial_relays_post(pre: Driver, post: Driver) -> bool {
    if pre.self_closed {
        post == pre
    } else {
        let added = reachable_relay_keys(pre.relays@);
        &&& post == (Driver { self_queue: post.self_queue, ..pre })
        &&& post.self_queue@.len() == pre.self_queue@.len() + added.len()
        &&& (forall|k: int|
            0 <= k < pre.self_queue@.len() ==> post.self_queue@[k] == pre.self_queue@[k])
        &&& (forall|k: int|
            0 <= k < added.len() ==> is_dial_intent_for(
                post.self_queue@[pre.self_queue@.len() + k],
                added[k],
            ))
    }
}

/// What `listen_on_relay` emits: a circuit-listen action at the relay's
/// address, only for a known relay that finished the observed-address
/// exchange; anything else is dropped silently and retried under policy.
pub open spec fn listen_on_relay_effects(d: Driver, peer: Seq<char>, effects: Seq<Effect>) -> bool {
    if d.has_relay(peer) && d.relay_of(peer).status is Connected {
        effects.len() == 1 && (effects[0] matches Effect::Action(
            Action::ListenOnRelay { peer: p, addr },
        ) && p@ == peer && addr@ == d.relay_of(peer).addr@)
    } else {
        effects.len() == 0
    }
}

/// What a circuit-listen outcome does: on success the listener is tracked for
/// the relay and the reservation awaited; a failure changes nothing (the
/// relay reconnect path will retry).
pub open spec fn relay_listen_result_post(pre: Driver, post: Driver, peer: Seq<char>, listener: Option<u64>) -> bool {
    match listener {
        None => post == pre,
        Some(id) => if pre.has_relay(peer) {
            &&& post == (Driver {
                relays: post.relays,
                tracked_listeners: post.tracked_listeners,
                ..pre
            })
            &&& relays_updated(pre.relays@, post.relays@, peer, RelayStatus::PendingReservation)
            &&& post.tracked_listeners@.len() == pre.tracked_listeners@.len() + 1
            &&& (forall|k: int|
                0 <= k < pre.tracked_listeners@.len() ==> post.tracked_listeners@[k]
                    == pre.tracked_listeners@[k])
            &&& (post.tracked_listeners@.last().0 == id && (post.tracked_listeners@.last().1
                matches ListenerType::CircuitRelay(q) && q@ == peer))
        } else {
            post == pre
        },
    }
}

impl Driver {
    /// Disconnect a relay peer, apply the reconnect policy to its record, and
    /// schedule a delayed re-dial while the relay is not given up on.  Does
    /// nothing for peers that are no relays.
    fn maybe_reconnect_relay(&mut self, peer: &String, delay_secs: u64) -> (effects: Vec<Effect>)
        requires
            old(self).wf(),
        ensures
            final(self).wf(),
            reconnect_post(*old(self), *final(self), peer@, delay_secs, effects@),
    {
        let mut effects: Vec<Effect> = Vec::new();
        match self.relay_index(peer) {
            Some(i) => {
                proof {
                    self.lemma_relay_at(i as int);
                }
                let ghost pre = *self;
                effects.push(Effect::Action(Action::DisconnectPeer(peer.clone())));
                let policy = self.reconn_policy;
                let entry = &mut self.relays[i];
                entry.1.set_disconnected(&policy);
                if !self.relays[i].1.is_unreachable() {
                    effects.push(
                        Effect::Action(
                            Action::ScheduleDial {
                                node: NodeId::Peer(peer.clone()),
                                delay_secs,
                            },
                        ),
                    );
                }
                proof {
                    let ii = i as int;
                    assert(self.relays@ =~= pre.relays@.update(
                        ii,
                        (pre.relays@[ii].0, (Relay {
                            addr: pre.relays@[ii].1.addr,
                            status: self.relays@[ii].1.status,
                        })),
                    ));
                    assert(relay_status_set(pre, *self, peer@, self.relays@[ii].1.status));
                    Driver::lemma_relay_update_wf(pre, *self, ii);
                }
            },
            None => {},
        }
        effects
    }

    /// Queue one dial intent per relay not given up on; called when every
    /// required listener is ready.
    pub fn dial_relays(&mut self)
        ensures
            dial_relays_post(*old(self), *final(self)),
    {
        if self.self_closed {
            return ;
        }
        let ghost pre = *self;
        let mut i: usize = 0;
        while i < self.relays.len()
            invariant
                i <= self.relays@.len(),
                !self.self_closed,
                *self == (Driver { self_queue: self.self_queue, ..pre }),
                self.self_queue@.len() == pre.self_queue@.len() + reachable_relay_keys(
                    pre.relays@.take(i as int),
                ).len(),
                forall|k: int|
                    0 <= k < pre.self_queue@.len() ==> self.self_queue@[k] == pre.self_queue@[k],
                forall|k: int|
                    0 <= k < reachable_relay_keys(pre.relays@.take(i as int)).len()
                        ==> is_dial_intent_for(
                        self.self_queue@[pre.self_queue@.len() + k],
                        reachable_relay_keys(pre.relays@.take(i as int))[k],
                    ),
            decreases self.relays@.len() - i,
        {
            let ghost taken = pre.relays@.take(i as int);
            proof {
                assert(pre.relays@.take(i + 1).drop_last() =~= taken);
                assert(pre.relays@.take(i + 1).last() == pre.relays@[i as int]);
            }
            if !self.relays[i].1.is_unreachable() {
                let m = Message::Intent(Intent::Dial(NodeId::Peer(self.relays[i].0.clone())));
                self.self_queue.push(m);
            }
            i = i + 1;
        }
        proof {
            assert(pre.relays@.take(pre.relays@.len() as int) =~= pre.relays@);
        }
    }

    /// Sleep-then-dial: with a delay the wait is handed to the host side,
    /// which gives the intent back through `send_dial_intent` without one;
    /// without a delay the dial intent is queued at once.
    pub fn send_dial_intent(&mut self, node: NodeId, delay_secs: Option<u64>) -> (effects: Vec<
        Effect,
    >)
        ensures
            (match delay_secs {
                Some(d) => *final(self) == *old(self) && effects@.len() == 1 && (effects@[0]
                    matches Effect::Action(Action::ScheduleDial { node: n, delay_secs: d2 }) && n
                    == node && d2 == d),
                None => effects@.len() == 0 && (old(self).self_closed ==> *final(self) == *old(
                    self,
                )) && (!old(self).self_closed ==> *final(self) == (Driver {
                    self_queue: final(self).self_queue,
                    ..*old(self)
                }) && final(self).self_queue@ == old(self).self_queue@.push(
                    Message::Intent(Intent::Dial(node)),
                )),
            }),
    {
        let mut effects: Vec<Effect> = Vec::new();
        match delay_secs {
            Some(d) => {
                effects.push(Effect::Action(Action::ScheduleDial { node, delay_secs: d }));
            },
            None => {
                self.send_self_message(Message::Intent(Intent::Dial(node)));
            },
        }
        effects
    }

    /// Install the circuit listener on a connected relay.  The outcome is
    /// reported back through `on_relay_listen_result`.
    pub fn listen_on_relay(&mut self, peer: &String) -> (effects: Vec<Effect>)
        requires
            old(self).wf(),
        ensures
            final(self).wf(),
            *final(self) == *old(self),
            listen_on_relay_effects(*old(self), peer@, effects@),
    {
        let mut effects: Vec<Effect> = Vec::new();
        match self.relay_index(peer) {
            Some(i) => {
                proof {
                    self.lemma_relay_at(i as int);
                }
                if self.relays[i].1.is_connected() {
                    let addr = self.relays[i].1.addr().clone();
                    effects.push(
                        Effect::Action(Action::ListenOnRelay { peer: peer.clone(), addr }),
                    );
                }
            },
            None => {},
        }
        effects
    }

    /// Apply the outcome of a circuit listen: on success the new listener is
    /// tracked for the relay and the reservation awaited.
    pub fn on_relay_listen_result(&mut self, peer: String, listener: Option<u64>)
        requires
            old(self).wf(),
        ensures
            final(self).wf(),
            relay_listen_result_post(*old(self), *final(self), peer@, listener),
    {
        match listener {
            Some(id) => {
                match self.relay_index(&peer) {
                    Some(i) => {
                        proof {
                            self.lemma_relay_at(i as int);
                        }
                        let ghost pre = *self;
                        self.tracked_listeners.push((id, ListenerType::CircuitRelay(peer)));
                        let entry = &mut self.relays[i];
                        entry.1.set_pending_reservation();
                        proof {
                            let ii = i as int;
                            assert(self.relays@ =~= pre.relays@.update(
                                ii,
                                (pre.relays@[ii].0, (Relay {
                                    addr: pre.relays@[ii].1.addr,
                                    status: RelayStatus::PendingReservation,
                                })),
                            ));
                            Driver::lemma_relay_update_wf(pre, *self, ii);
                        }
                    },
                    None => {},
                }
            },
            None => {},
        }
    }
}

/// Every relay holds an accepted reservation (vacuously true without relays).
pub open spec fn all_relaying(relays: Seq<(String, Relay)>) -> bool {
    forall|i: int| 0 <= i < relays.len() ==> (#[trigger] relays[i]).1.status is Relaying
}

/// No transport listener is still required before `ListenersReady`.
pub open spec fn required_empty(d: Driver) -> bool {
    !d.required_tcp && !d.required_quic && !d.required_ws
}

/// Whether the listener type was still required when it yielded its address.
pub open spec fn was_required_of(pre: Driver, t: ListenerType) -> bool {
    match t {
        ListenerType::TCP => pre.required_tcp,
        ListenerType::QUIC => pre.required_quic,
        ListenerType::WebSocket => pre.required_ws,
        ListenerType::CircuitRelay(_) => false,
    }
}

/// The requirement of the resolved listener type is dropped; others are kept.
pub open spec fn required_flags_after(pre: Driver, post: Driver, t: ListenerType) -> bool {
    match t {
        ListenerType::TCP => !post.required_tcp && post.required_quic == pre.required_quic
            && post.required_ws == pre.required_ws,
        ListenerType::QUIC => post.required_tcp == pre.required_tcp && !post.required_quic
            && post.required_ws == pre.required_ws,
        ListenerType::WebSocket => post.required_tcp == pre.required_tcp && post.required_quic
            == pre.required_quic && !post.required_ws,
        ListenerType::CircuitRelay(_) => post.required_tcp == pre.required_tcp
            && post.required_quic == pre.required_quic && post.required_ws == pre.required_ws,
    }
}

/// `ListenersReady` is queued exactly when the last required listener came up
/// and the queue is still open.
pub open spec fn ready_queued_after(pre: Driver, post: Driver, was_required: bool) -> bool {
    if was_required && required_empty(post) && !pre.self_closed {
        post.self_queue@ == pre.self_queue@.push(Message::ListenersReady)
    } else {
        post.self_queue@ == pre.self_queue@
    }
}

/// What a new listener address does: the listener joins the live set, its
/// registry entry resolves and possibly completes the required set, the host
/// hears `ListeningOn`, and — once nothing is tracked and every relay holds a
/// reservation — `Ready`.
pub open spec fn new_listen_addr_post(pre: Driver, post: Driver, id: u64, address: String, effects: Seq<Effect>) -> bool {
    &&& post == (Driver {
        required_tcp: post.required_tcp,
        required_quic: post.required_quic,
        required_ws: post.required_ws,
        tracked_listeners: post.tracked_listeners,
        listeners: post.listeners,
        self_queue: post.self_queue,
        ..pre
    })
    &&& (listener_listed(pre.listeners@, id) ==> post.listeners@ == pre.listeners@)
    &&& (!listener_listed(pre.listeners@, id) ==> post.listeners@ == pre.listeners@.push(id))
    &&& (!tracked_has(pre.tracked_listeners@, id) ==> {
        &&& post.tracked_listeners@ == pre.tracked_listeners@
        &&& post.required_tcp == pre.required_tcp
        &&& post.required_quic == pre.required_quic
        &&& post.required_ws == pre.required_ws
        &&& post.self_queue@ == pre.self_queue@
    })
    &&& (tracked_has(pre.tracked_listeners@, id) ==> exists|i: int|
        {
            &&& 0 <= i < pre.tracked_listeners@.len()
            &&& (#[trigger] pre.tracked_listeners@[i]).0 == id
            &&& (forall|j: int| 0 <= j < i ==> pre.tracked_listeners@[j].0 != id)
            &&& post.tracked_listeners@ == pre.tracked_listeners@.remove(i)
            &&& required_flags_after(pre, post, pre.tracked_listeners@[i].1)
            &&& ready_queued_after(pre, post, was_required_of(pre, pre.tracked_listeners@[i].1))
        })
    &&& effects.len() >= 1
    &&& (effects[0] matches Effect::Event(Event::ListeningOn { address: a }) && a@ == address@)
    &&& if post.tracked_listeners@.len() == 0 && all_relaying(pre.relays@) {
        effects.len() == 2 && effects[1] == Effect::Event(Event::Ready)
    } else {
        effects.len() == 1
    }
}

/// What a closed listener does: its registry entry is dropped; if it was a
/// circuit listener, `Ready` is reported once nothing else is tracked, and a
/// failed close re-dials its relay after the reservation cooldown.
pub open spec fn listener_closed_post(pre: Driver, post: Driver, id: u64, is_error: bool, effects: Seq<Effect>) -> bool {
    if !tracked_has(pre.tracked_listeners@, id) {
        &&& post == pre
        &&& effects.len() == 0
    } else {
        exists|i: int|
            {
                &&& 0 <= i < pre.tracked_listeners@.len()
                &&& (#[trigger] pre.tracked_listeners@[i]).0 == id
                &&& (forall|j: int| 0 <= j < i ==> pre.tracked_listeners@[j].0 != id)
                &&& post.tracked_listeners@ == pre.tracked_listeners@.remove(i)
                &&& match pre.tracked_listeners@[i].1 {
                    ListenerType::CircuitRelay(q) => {
                        let ready_ct: int = if pre.tracked_listeners@.remove(i).len() == 0 {
                            1int
                        } else {
                            0int
                        };
                        &&& (pre.tracked_listeners@.remove(i).len() == 0 ==> effects.len() >= 1
                            && effects[0] == Effect::Event(Event::Ready))
                        &&& if is_error {
                            &&& effects.len() == ready_ct + reconnect_len(pre, q@)
                            &&& reconnect_shape(pre, post, q@, DELAY_SEC_RECONNECT_CIRCUIT_RELAY, effects.skip(ready_ct))
                        } else {
                            &&& post == (Driver {
                                tracked_listeners: post.tracked_listeners,
                                ..pre
                            })
                            &&& effects.len() == ready_ct
                        }
                    },
                    _ => {
                        &&& post == (Driver { tracked_listeners: post.tracked_listeners, ..pre })
                        &&& effects.len() == 0
                    },
                }
            }
    }
}

/// How many effects a relay reconnect produces.
pub open spec fn reconnect_len(pre: Driver, peer: Seq<char>) -> int {
    if pre.has_relay(peer) {
        if crate::relay::disconnected_status(pre.relay_of(peer).status, pre.reconn_policy)
            is Unreachable {
            1int
        } else {
            2int
        }
    } else {
        0int
    }
}

/// The state change and effects of a relay reconnect, except that the
/// tracked-listener registry may have changed around it.
pub open spec fn reconnect_shape(pre: Driver, post: Driver, peer: Seq<char>, delay_secs: u64, effects: Seq<Effect>) -> bool {
    if pre.has_relay(peer) {
        let st = crate::relay::disconnected_status(pre.relay_of(peer).status, pre.reconn_policy);
        &&& relays_updated(pre.relays@, post.relays@, peer, st)
        &&& post == (Driver {
            relays: post.relays,
            tracked_listeners: post.tracked_listeners,
            ..pre
        })
        &&& effects.len() >= 1
        &&& (effects[0] matches Effect::Action(Action::DisconnectPeer(q)) && q@ == peer)
        &&& if st is Unreachable {
            effects.len() == 1
        } else {
            effects.len() == 2 && (effects[1] matches Effect::Action(
                Action::ScheduleDial { node: n, delay_secs: d },
            ) && (n matches NodeId::Peer(q2) && q2@ == peer) && d == delay_secs)
        }
    } else {
        &&& post == (Driver { tracked_listeners: post.tracked_listeners, ..pre })
        &&& effects.len() == 0
    }
}

/// What an identify-protocol report does: a relay in the observed-address
/// exchange advances, and on completion the circuit listener is queued.
pub open spec fn identify_update_post(pre: Driver, post: Driver, peer: Seq<char>, update: RelayConnectionUpdate) -> bool {
    if pre.has_relay(peer) {
        let st = crate::relay::connecting_status(pre.relay_of(peer).status, update);
        &&& relays_updated(pre.relays@, post.relays@, peer, st)
        &&& if st is Connected && !pre.self_closed {
            &&& post == (Driver { relays: post.relays, self_queue: post.self_queue, ..pre })
            &&& post.self_queue@.len() == pre.self_queue@.len() + 1
            &&& (forall|k: int|
                0 <= k < pre.self_queue@.len() ==> post.self_queue@[k] == pre.self_queue@[k])
            &&& (post.self_queue@.last() matches Message::RelayConnected(q) && q@ == peer)
        } else {
            post == (Driver { relays: post.relays, ..pre })
        }
    } else {
        post == pre
    }
}

impl Driver {
    /// Drop and return the first registry entry for the listener, if any,
    /// with its position.
    fn tracked_remove(&mut self, id: u64) -> (r: Option<(usize, ListenerType)>)
        ensures
            (match r {
                None => *final(self) == *old(self) && !tracked_has(
                    old(self).tracked_listeners@,
                    id,
                ),
                Some((i, t)) => {
                    &&& i < old(self).tracked_listeners@.len()
                    &&& old(self).tracked_listeners@[i as int].0 == id
                    &&& (forall|j: int|
                        0 <= j < i ==> (#[trigger] old(self).tracked_listeners@[j]).0 != id)
                    &&& t == old(self).tracked_listeners@[i as int].1
                    &&& *final(self) == (Driver {
                        tracked_listeners: final(self).tracked_listeners,
                        ..*old(self)
                    })
                    &&& final(self).tracked_listeners@ == old(self).tracked_listeners@.remove(
                        i as int,
                    )
                },
            }),
    {
        let mut i: usize = 0;
        while i < self.tracked_listeners.len()
            invariant
                *self == *old(self),
                i <= self.tracked_listeners@.len(),
                forall|j: int| 0 <= j < i ==> (#[trigger] self.tracked_listeners@[j]).0 != id,
            decreases self.tracked_listeners@.len() - i,
        {
            if self.tracked_listeners[i].0 == id {
                let (_, t) = self.tracked_listeners.remove(i);
                return Some((i, t));
            }
            i = i + 1;
        }
        None
    }

    /// Whether every relay holds an accepted reservation.
    fn all_relays_relaying(&self) -> (r: bool)
        ensures
            r == all_relaying(self.relays@),
    {
        let mut i: usize = 0;
        while i < self.relays.len()
            invariant
                i <= self.relays@.len(),
                forall|j: int| 0 <= j < i ==> (#[trigger] self.relays@[j]).1.status is Relaying,
            decreases self.relays@.len() - i,
        {
            if !self.relays[i].1.is_relaying() {
                return false;
            }
            i = i + 1;
        }
        true
    }

    /// Advance a relay's observed-address exchange and, once it completes,
    /// queue the circuit-listener installation.
    fn maybe_update_relay_on_identify(&mut self, peer: &String, update: RelayConnectionUpdate)
        requires
            old(self).wf(),
        ensures
            final(self).wf(),
            identify_update_post(*old(self), *final(self), peer@, update),
    {
        match self.relay_index(peer) {
            Some(i) => {
                proof {
                    self.lemma_relay_at(i as int);
                }
                let ghost pre = *self;
                let entry = &mut self.relays[i];
                entry.1.update_connecting(update);
                proof {
                    let ii = i as int;
                    assert(self.relays@ =~= pre.relays@.update(
                        ii,
                        (pre.relays@[ii].0, (Relay {
                            addr: pre.relays@[ii].1.addr,
                            status: self.relays@[ii].1.status,
                        })),
                    ));
                    Driver::lemma_relay_update_wf(pre, *self, ii);
                }
                if self.relays[i].1.is_connected() {
                    let ghost mid = *self;
                    self.send_self_message(Message::RelayConnected(peer.clone()));
                    proof {
                        Driver::lemma_wf_frame(mid, *self);
                    }
                }
            },
            None => {},
        }
    }

    /// Translate one overlay report into state transitions, events for the
    /// host, and actions for the host side, in the order their causes demand.
    #[verifier::rlimit(100)]
    pub fn on_swarm_event(&mut self, event: SwarmInput) -> (effects: Vec<Effect>)
        requires
            old(self).wf(),
        ensures
            final(self).wf(),
            swarm_post(*old(self), *final(self), event, effects@),
    {
        let mut effects: Vec<Effect> = Vec::new();
        match event {
            SwarmInput::ConnectionEstablished { peer } => {
                effects.push(
                    Effect::Event(
                        Event::Connected { node: (types::NodeId::Peer { peer_id: peer }) },
                    ),
                );
                effects
            },
            SwarmInput::ConnectionClosed { peer, address, cause } => {
                match cause {
                    Some(_) => {
                        let mut re = self.maybe_reconnect_relay(&peer, DELAY_SEC_RECONNECT);
                        effects.append(&mut re);
                    },
                    None => {},
                }
                effects.push(
                    Effect::Event(
                        Event::Disconnected { node: (types::NodeId::Address { address }) },
                    ),
                );
                effects
            },
            SwarmInput::OutgoingConnectionError { peer, error } => {
                match peer {
                    Some(p) => {
                        let mut re = self.maybe_reconnect_relay(&p, DELAY_SEC_RECONNECT);
                        effects.append(&mut re);
                        effects.push(
                            Effect::Event(
                                Event::ConnectionError {
                                    node: (types::NodeId::Peer { peer_id: p }),
                                    cause: error,
                                },
                            ),
                        );
                    },
                    None => {},
                }
                effects
            },
            SwarmInput::NewListenAddr { listener_id, address } => {
                let ghost pre = *self;
                let was = self.tracked_remove(listener_id);
                let ghost widx: int = match was {
                    Some((i, _)) => i as int,
                    None => 0,
                };
                let was_required: bool = match was {
                    Some((_, ListenerType::TCP)) => {
                        let r = self.required_tcp;
                        self.required_tcp = false;
                        r
                    },
                    Some((_, ListenerType::QUIC)) => {
                        let r = self.required_quic;
                        self.required_quic = false;
                        r
                    },
                    Some((_, ListenerType::WebSocket)) => {
                        let r = self.required_ws;
                        self.required_ws = false;
                        r
                    },
                    Some((_, ListenerType::CircuitRelay(_))) => false,
                    None => false,
                };
                if !self.listener_known(listener_id) {
                    self.listeners.push(listener_id);
                }
                effects.push(Effect::Event(Event::ListeningOn { address }));
                if was_required && !self.required_tcp && !self.required_quic
                    && !self.required_ws {
                    self.send_self_message(Message::ListenersReady);
                }
                proof {
                    Driver::lemma_wf_frame(pre, *self);
                    if was is Some {
                        assert((#[trigger] pre.tracked_listeners@[widx]).0 == listener_id);
                        assert(self.tracked_listeners@ == pre.tracked_listeners@.remove(widx));
                        assert(required_flags_after(pre, *self, pre.tracked_listeners@[widx].1));
                        assert(ready_queued_after(
                            pre,
                            *self,
                            was_required_of(pre, pre.tracked_listeners@[widx].1),
                        ));
                    }
                }
                let relays_connected = self.all_relays_relaying();
                if self.tracked_listeners.len() == 0 && relays_connected {
                    effects.push(Effect::Event(Event::Ready));
                }
                effects
            },
            SwarmInput::ListenerClosed { listener_id, is_error } => {
                let ghost pre = *self;
                match self.tracked_remove(listener_id) {
                    Some((wi, ListenerType::CircuitRelay(q))) => {
                        proof {
                            Driver::lemma_wf_frame(pre, *self);
                            assert((#[trigger] pre.tracked_listeners@[wi as int]).0
                                == listener_id);
                        }
                        if self.tracked_listeners.len() == 0 {
                            effects.push(Effect::Event(Event::Ready));
                        }
                        if is_error {
                            let mut re = self.maybe_reconnect_relay(
                                &q,
                                DELAY_SEC_RECONNECT_CIRCUIT_RELAY,
                            );
                            effects.append(&mut re);
                        }
                    },
                    Some((wi, _)) => {
                        proof {
                            Driver::lemma_wf_frame(pre, *self);
                            assert((#[trigger] pre.tracked_listeners@[wi as int]).0
                                == listener_id);
                        }
                    },
                    None => {},
                }
                effects
            },
            SwarmInput::MdnsDiscovered { peers } => {
                let mut i: usize = 0;
                while i < peers.len()
                    invariant
                        i <= peers@.len(),
                        effects@.len() == i,
                        forall|k: int|
                            0 <= k < i ==> ((#[trigger] effects@[k]) matches Effect::Action(
                                Action::AddPeerAddress { peer, addr },
                            ) && peer@ == peers@[k].0@ && addr@ == peers@[k].1@),
                    decreases peers@.len() - i,
                {
                    let (peer, addr) = (peers[i].0.clone(), peers[i].1.clone());
                    effects.push(Effect::Action(Action::AddPeerAddress { peer, addr }));
                    i = i + 1;
                }
                effects
            },
            SwarmInput::MdnsExpired { addrs } => {
                let mut i: usize = 0;
                while i < addrs.len()
                    invariant
                        i <= addrs@.len(),
                        effects@.len() == i,
                        forall|k: int|
                            0 <= k < i ==> ((#[trigger] effects@[k]) matches Effect::Action(
                                Action::RemoveExternalAddress { addr },
                            ) && addr@ == addrs@[k]@),
                    decreases addrs@.len() - i,
                {
                    let addr = addrs[i].clone();
                    effects.push(Effect::Action(Action::RemoveExternalAddress { addr }));
                    i = i + 1;
                }
                effects
            },
            SwarmInput::ReservationAccepted { relay_peer } => {
                match self.relay_index(&relay_peer) {
                    Some(i) => {
                        proof {
                            self.lemma_relay_at(i as int);
                        }
                        let awaiting = match self.relays[i].1.status {
                            RelayStatus::PendingReservation => true,
                            _ => false,
                        };
                        if awaiting {
                            let ghost pre = *self;
                            let entry = &mut self.relays[i];
                            entry.1.set_relaying();
                            proof {
                                let ii = i as int;
                                assert(self.relays@ =~= pre.relays@.update(
                                    ii,
                                    (pre.relays@[ii].0, (Relay {
                                        addr: pre.relays@[ii].1.addr,
                                        status: RelayStatus::Relaying,
                                    })),
                                ));
                                Driver::lemma_relay_update_wf(pre, *self, ii);
                            }
                        }
                    },
                    None => {},
                }
                effects
            },
            SwarmInput::IdentifySent { peer } => {
                self.maybe_update_relay_on_identify(
                    &peer,
                    RelayConnectionUpdate::SentObservedAddr,
                );
                effects
            },
            SwarmInput::IdentifyReceived { peer, observed_addr } => {
                self.maybe_update_relay_on_identify(
                    &peer,
                    RelayConnectionUpdate::LearntObservedAddr(observed_addr),
                );
                effects
            },
            SwarmInput::MessageRequest { protocol, peer, request_id, bytes, channel } => {
                let ghost mid = *self;
                let key = ResponseKey {
                    node: NodeId::Peer(peer.clone()),
                    protocol: protocol.clone(),
                    id: request_id.clone(),
                };
                proof {
                    assert(key@ == (crate::table::ResponseKeyV {
                        peer: true,
                        node_text: peer@,
                        protocol: protocol@,
                        id: request_id@,
                    }));
                }
                self.response_channels.insert(key, channel);
                proof {
                    Driver::lemma_wf_frame(mid, *self);
                }
                effects.push(
                    Effect::Event(
                        Event::InboundRequest {
                            sender: (types::NodeId::Peer { peer_id: peer }),
                            request: (InboundProtocolRequest { protocol, bytes, id: request_id }),
                        },
                    ),
                );
                effects
            },
            SwarmInput::MessageResponse { protocol, peer, request_id, bytes } => {
                effects.push(
                    Effect::Event(
                        Event::InboundResponse {
                            sender: (types::NodeId::Peer { peer_id: peer }),
                            response: (InboundProtocolResponse { protocol, bytes, id: request_id }),
                        },
                    ),
                );
                effects
            },
            SwarmInput::InboundFailure { peer, error } => {
                let cause = String::from_str("Error while receiving a message from ").concat(
                    peer.as_str(),
                ).concat(": ").concat(error.as_str());
                effects.push(Effect::Event(Event::Error { cause }));
                effects
            },
            SwarmInput::OutboundFailure { peer, error } => {
                let cause = String::from_str("Error while sending a message to ").concat(
                    peer.as_str(),
                ).concat(": ").concat(error.as_str());
                effects.push(Effect::Event(Event::Error { cause }));
                effects
            },
        }
    }

    /// Whether the listener handle is already in the live set.
    fn listener_known(&self, id: u64) -> (r: bool)
        ensures
            r == listener_listed(self.listeners@, id),
    {
        let mut i: usize = 0;
        while i < self.listeners.len()
            invariant
                i <= self.listeners@.len(),
                forall|j: int| 0 <= j < i ==> self.listeners@[j] != id,
            decreases self.listeners@.len() - i,
        {
            if self.listeners[i] == id {
                return true;
            }
            i = i + 1;
        }
        false
    }
}

/// What one overlay report does, case by case, per the translation table.
pub open spec fn swarm_post(pre: Driver, post: Driver, event: SwarmInput, effects: Seq<Effect>) -> bool {
    match event {
        SwarmInput::ConnectionEstablished { peer } => {
            &&& post == pre
            &&& effects.len() == 1
            &&& (effects[0] matches Effect::Event(Event::Connected { node }) && (node matches
                types::NodeId::Peer { peer_id } && peer_id@ == peer@))
        },
        SwarmInput::ConnectionClosed { peer, address, cause } => {
            &&& effects.len() >= 1
            &&& (effects.last() matches Effect::Event(Event::Disconnected { node }) && (node
                matches types::NodeId::Address { address: a } && a@ == address@))
            &&& match cause {
                None => post == pre && effects.len() == 1,
                Some(_) => reconnect_post(
                    pre,
                    post,
                    peer@,
                    DELAY_SEC_RECONNECT,
                    effects.drop_last(),
                ),
            }
        },
        SwarmInput::OutgoingConnectionError { peer, error } => {
            match peer {
                None => post == pre && effects.len() == 0,
                Some(p) => {
                    &&& effects.len() >= 1
                    &&& (effects.last() matches Effect::Event(
                        Event::ConnectionError { node, cause },
                    ) && (node matches types::NodeId::Peer { peer_id } && peer_id@ == p@) && cause@
                        == error@)
                    &&& reconnect_post(pre, post, p@, DELAY_SEC_RECONNECT, effects.drop_last())
                },
            }
        },
        SwarmInput::NewListenAddr { listener_id, address } => new_listen_addr_post(
            pre,
            post,
            listener_id,
            address,
            effects,
        ),
        SwarmInput::ListenerClosed { listener_id, is_error } => listener_closed_post(
            pre,
            post,
            listener_id,
            is_error,
            effects,
        ),
        SwarmInput::MdnsDiscovered { peers } => {
            &&& post == pre
            &&& effects.len() == peers@.len()
            &&& (forall|k: int|
                0 <= k < effects.len() ==> ((#[trigger] effects[k]) matches Effect::Action(
                    Action::AddPeerAddress { peer, addr },
                ) && peer@ == peers@[k].0@ && addr@ == peers@[k].1@))
        },
        SwarmInput::MdnsExpired { addrs } => {
            &&& post == pre
            &&& effects.len() == addrs@.len()
            &&& (forall|k: int|
                0 <= k < effects.len() ==> ((#[trigger] effects[k]) matches Effect::Action(
                    Action::RemoveExternalAddress { addr },
                ) && addr@ == addrs@[k]@))
        },
        SwarmInput::ReservationAccepted { relay_peer } => {
            &&& effects.len() == 0
            &&& if pre.has_relay(relay_peer@) && pre.relay_of(relay_peer@)
                .status is PendingReservation {
                &&& post == (Driver { relays: post.relays, ..pre })
                &&& relays_updated(pre.relays@, post.relays@, relay_peer@, RelayStatus::Relaying)
            } else {
                post == pre
            }
        },
        SwarmInput::IdentifySent { peer } => {
            &&& effects.len() == 0
            &&& identify_update_post(pre, post, peer@, RelayConnectionUpdate::SentObservedAddr)
        },
        SwarmInput::IdentifyReceived { peer, observed_addr } => {
            &&& effects.len() == 0
            &&& identify_update_post(
                pre,
                post,
                peer@,
                RelayConnectionUpdate::LearntObservedAddr(observed_addr),
            )
        },
        SwarmInput::MessageRequest { protocol, peer, request_id, bytes, channel } => {
            let kv = (crate::table::ResponseKeyV {
                peer: true,
                node_text: peer@,
                protocol: protocol@,
                id: request_id@,
            });
            &&& post == (Driver { response_channels: post.response_channels, ..pre })
            &&& post.response_channels.get(kv) == Some(channel)
            &&& (forall|k2: crate::table::ResponseKeyV|
                k2 != kv ==> post.response_channels.get(k2) == pre.response_channels.get(k2))
            &&& post.response_channels.len() == pre.response_channels.len() + (
            if pre.response_channels.contains_key(kv) {
                0int
            } else {
                1int
            })
            &&& effects.len() == 1
            &&& (effects[0] matches Effect::Event(Event::InboundRequest { sender, request }) && (
            sender matches types::NodeId::Peer { peer_id } && peer_id@ == peer@) && request.protocol@
                == protocol@ && request.bytes@ == bytes@ && request.id@ == request_id@)
        },
        SwarmInput::MessageResponse { protocol, peer, request_id, bytes } => {
            &&& post == pre
            &&& effects.len() == 1
            &&& (effects[0] matches Effect::Event(Event::InboundResponse { sender, response }) && (
            sender matches types::NodeId::Peer { peer_id } && peer_id@ == peer@)
                && response.protocol@ == protocol@ && response.bytes@ == bytes@ && response.id@
                == request_id@)
        },
        SwarmInput::InboundFailure { peer, error } => {
            &&& post == pre
            &&& one_error(effects, message_failure_text(true, peer@, error@))
        },
        SwarmInput::OutboundFailure { peer, error } => {
            &&& post == pre
            &&& one_error(effects, message_failure_text(false, peer@, error@))
        },
    }
}

/// What one host intent does: sends, dials, disconnects, or shuts down.
pub open spec fn intent_post(pre: Driver, post: Driver, intent: Intent, effects: Seq<Effect>) -> bool {
    match intent {
        Intent::DirectMessage { peer, message } => send_post(pre, post, peer, message, effects),
        Intent::Dial(node) => post == pre && dial_node_effects(pre, node, effects),
        Intent::Disconnect(node) => post == pre && disconnect_effects(node, effects),
        Intent::Close => close_post(pre, post, effects),
    }
}

/// What one self-message does: the ready signal dials the relays, a
/// connected relay gets its circuit listener, and internally-originated
/// intents are handled like host intents.
pub open spec fn self_message_post(pre: Driver, post: Driver, msg: Message, effects: Seq<Effect>) -> bool {
    match msg {
        Message::ListenersReady => dial_relays_post(pre, post) && effects.len() == 0,
        Message::RelayConnected(p) => post == pre && listen_on_relay_effects(pre, p@, effects),
        Message::Intent(i) => intent_post(pre, post, i, effects),
    }
}

impl Driver {
    /// Consume one host command.
    pub fn on_intent(&mut self, intent: Intent) -> (effects: Vec<Effect>)
        requires
            old(self).wf(),
        ensures
            final(self).wf(),
            intent_post(*old(self), *final(self), intent, effects@),
    {
        match intent {
            Intent::DirectMessage { peer, message } => self.send_direct_message(peer, message),
            Intent::Dial(node) => self.dial_node(node),
            Intent::Disconnect(node) => self.disconnect(node),
            Intent::Close => {
                let ghost pre = *self;
                let effects = self.close();
                proof {
                    Driver::lemma_wf_frame(pre, *self);
                }
                effects
            },
        }
    }

    /// Consume one self-message.
    pub fn on_self_message(&mut self, msg: Message) -> (effects: Vec<Effect>)
        requires
            old(self).wf(),
        ensures
            final(self).wf(),
            self_message_post(*old(self), *final(self), msg, effects@),
    {
        match msg {
            Message::ListenersReady => {
                let ghost pre = *self;
                self.dial_relays();
                proof {
                    if !pre.self_closed {
                        Driver::lemma_wf_frame(pre, *self);
                    }
                }
                Vec::new()
            },
            Message::RelayConnected(p) => self.listen_on_relay(&p),
            Message::Intent(i) => self.on_intent(i),
        }
    }
}

} // verus!

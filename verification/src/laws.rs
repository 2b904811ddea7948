//! Properties of the driver that hold across steps.
//!
//! Each law is stated over the relational contracts of the driver's handlers
//! (`swarm_post`, `intent_post`, `close_post`, ...), so it holds of every
//! execution those contracts describe.

use vstd::prelude::*;
use crate::config::ReconnectPolicy;
use crate::driver::{
    close_post, dial_relays_post, one_error, send_error_text, send_post, swarm_post, Driver,
    Effect, Message, SendError, SwarmInput,
};
use crate::event::Event;
use crate::message::{OutboundProtocolMessage, OutboundProtocolResponse};
use crate::node::NodeId;
use crate::relay::{connecting_status, disconnected_status, RelayConnectionUpdate, RelayStatus};
use crate::table::{ResponseKey, ResponseKeyV};

verus! {

/// The table key of a response addressed to `node` on an exchange.
pub open spec fn response_kv(node: NodeId, resp: OutboundProtocolResponse) -> ResponseKeyV {
    ResponseKeyV {
        peer: node is Peer,
        node_text: node.text(),
        protocol: resp.protocol@,
        id: resp.id@,
    }
}

/// How many inbound-request events a step emitted.
pub open spec fn count_inbound_requests(effects: Seq<Effect>) -> int
    decreases effects.len(),
{
    if effects.len() == 0 {
        0int
    } else {
        count_inbound_requests(effects.drop_last()) + (
        if effects.last() matches Effect::Event(Event::InboundRequest { .. }) {
            1int
        } else {
            0int
        })
    }
}

/// How many reply channels a step consumed for sending.
pub open spec fn count_response_sends(effects: Seq<Effect>) -> int
    decreases effects.len(),
{
    if effects.len() == 0 {
        0int
    } else {
        count_response_sends(effects.drop_last()) + (
        if effects.last() matches Effect::Action(crate::driver::Action::SendResponse { .. }) {
            1int
        } else {
            0int
        })
    }
}

/// How many disconnected events a step emitted.
pub open spec fn count_disconnected(effects: Seq<Effect>) -> int
    decreases effects.len(),
{
    if effects.len() == 0 {
        0int
    } else {
        count_disconnected(effects.drop_last()) + (
        if effects.last() matches Effect::Event(Event::Disconnected { .. }) {
            1int
        } else {
            0int
        })
    }
}

/// An inbound request is answered at most once: sending a response consumes
/// the stored reply channel atomically, so a second send for the same
/// exchange is refused with a channel-not-found error and no send action.
pub proof fn lemma_response_consumed_once(
    s0: Driver,
    s1: Driver,
    s2: Driver,
    node: NodeId,
    resp: OutboundProtocolResponse,
    e1: Seq<Effect>,
    e2: Seq<Effect>,
)
    requires
        send_post(s0, s1, node, OutboundProtocolMessage::Response(resp), e1),
        send_post(s1, s2, node, OutboundProtocolMessage::Response(resp), e2),
        s0.response_channels.get(response_kv(node, resp)) is Some,
        s0.knows_protocol(resp.protocol@),
    ensures
        e1.len() == 1 && (e1[0] matches Effect::Action(
            crate::driver::Action::SendResponse { .. },
        )),
        one_error(
            e2,
            send_error_text(
                SendError::ResponseChannelNotFound(
                    (ResponseKey { node, protocol: resp.protocol, id: resp.id }),
                ),
            ),
        ),
{
}

/// Shutdown leaves no reply channel behind: after `close`, the
/// response-channel table is empty.
pub proof fn lemma_close_clears_table(pre: Driver, post: Driver, effects: Seq<Effect>)
    requires
        close_post(pre, post, effects),
    ensures
        post.response_channels.len() == 0,
        forall|k: ResponseKeyV| post.response_channels.get(k) is None,
{
}

/// The response-channel table balance over one overlay report: the table
/// grows exactly by the inbound requests announced (their correlation ids
/// being fresh), and no overlay report consumes a channel.
pub proof fn lemma_table_balance_swarm(
    pre: Driver,
    post: Driver,
    event: SwarmInput,
    effects: Seq<Effect>,
)
    requires
        swarm_post(pre, post, event, effects),
        event matches SwarmInput::MessageRequest { protocol, peer, request_id, .. }
            ==> !pre.response_channels.contains_key(
            (ResponseKeyV {
                peer: true,
                node_text: peer@,
                protocol: protocol@,
                id: request_id@,
            }),
        ),
    ensures
        post.response_channels.len() == pre.response_channels.len() + count_inbound_requests(
            effects,
        ),
{
    match event {
        SwarmInput::MessageRequest { .. } => {
            assert(effects.len() == 1);
            lemma_count_unfold(effects);
        },
        _ => {
            lemma_harmless(effects);
        },
    }
}

/// Every reply channel in the table belongs to a registered protocol; this
/// holds throughout, because the overlay only delivers requests on the
/// protocols the node registered.
pub open spec fn table_protocols_registered(d: Driver) -> bool {
    forall|kv: ResponseKeyV|
        #[trigger] d.response_channels.contains_key(kv) ==> crate::driver::protocol_listed(
            d.protocols@,
            kv.protocol,
        )
}

/// The response-channel table balance over one host command other than
/// shutdown: the table shrinks exactly by the reply channels consumed for
/// sending, and no command inserts one.
pub proof fn lemma_table_balance_intent(
    pre: Driver,
    post: Driver,
    intent: crate::driver::Intent,
    effects: Seq<Effect>,
)
    requires
        crate::driver::intent_post(pre, post, intent, effects),
        !(intent is Close),
        pre.response_channels.wf(),
        table_protocols_registered(pre),
    ensures
        post.response_channels.len() == pre.response_channels.len() - count_response_sends(
            effects,
        ),
{
    match intent {
        crate::driver::Intent::DirectMessage { peer, message } => {
            match message {
                OutboundProtocolMessage::Response(resp) => {
                    let kv = (ResponseKeyV {
                        peer: peer is Peer,
                        node_text: peer.text(),
                        protocol: resp.protocol@,
                        id: resp.id@,
                    });
                    match pre.response_channels.get(kv) {
                        Some(_) => {
                            assert(pre.response_channels.contains_key(kv));
                            assert(pre.knows_protocol(resp.protocol@));
                            assert(effects.len() == 1);
                            lemma_count_unfold(effects);
                        },
                        None => {
                            lemma_harmless(effects);
                        },
                    }
                },
                OutboundProtocolMessage::Request(_) => {
                    lemma_harmless(effects);
                },
            }
        },
        _ => {
            lemma_harmless(effects);
        },
    }
}

/// Effects of a step that neither announces an inbound request nor consumes a
/// reply channel count zero of both.
proof fn lemma_harmless(effects: Seq<Effect>)
    requires
        forall|k: int|
            0 <= k < effects.len() ==> !((#[trigger] effects[k]) matches Effect::Event(
                Event::InboundRequest { .. },
            )),
        forall|k: int|
            0 <= k < effects.len() ==> !((#[trigger] effects[k]) matches Effect::Action(
                crate::driver::Action::SendResponse { .. },
            )),
    ensures
        count_inbound_requests(effects) == 0,
        count_response_sends(effects) == 0,
    decreases effects.len(),
{
    if effects.len() > 0 {
        lemma_harmless(effects.drop_last());
    }
}

/// Unfolds the counters over a one-element sequence.
proof fn lemma_count_unfold(effects: Seq<Effect>)
    requires
        effects.len() == 1,
    ensures
        count_inbound_requests(effects) == (
        if effects[0] matches Effect::Event(Event::InboundRequest { .. }) {
            1int
        } else {
            0int
        }),
        count_response_sends(effects) == (
        if effects[0] matches Effect::Action(crate::driver::Action::SendResponse { .. }) {
            1int
        } else {
            0int
        }),
{
    lemma_harmless(effects.drop_last());
    assert(effects.last() == effects[0]);
}

/// One step the driver may take on a single relay's status.
pub ghost enum RelayStep {
    /// A dial of the relay was accepted.
    DialAccepted,
    /// The connection failed or closed; the reconnect policy applies.
    ConnectionFailed,
    /// The identify protocol reported observed-address progress.
    IdentifyProgress(RelayConnectionUpdate),
    /// A circuit listener was installed on the relay.
    CircuitListenerInstalled,
    /// The relay accepted the reservation.
    ReservationAccepted,
    /// The dial failed in a way that is never retried.
    GivenUp,
}

/// The status a relay step assigns.
pub open spec fn relay_step_target(
    pre: RelayStatus,
    policy: ReconnectPolicy,
    step: RelayStep,
) -> RelayStatus {
    match step {
        RelayStep::DialAccepted => RelayStatus::Connecting {
            told_observed_addr: false,
            learnt_observed_addr: false,
        },
        RelayStep::ConnectionFailed => disconnected_status(pre, policy),
        RelayStep::IdentifyProgress(u) => connecting_status(pre, u),
        RelayStep::CircuitListenerInstalled => RelayStatus::PendingReservation,
        RelayStep::ReservationAccepted => RelayStatus::Relaying,
        RelayStep::GivenUp => RelayStatus::Unreachable,
    }
}

/// An edge of the relay lifecycle diagram, or standing still.
pub open spec fn diagram_edge(
    pre: RelayStatus,
    post: RelayStatus,
    policy: ReconnectPolicy,
) -> bool {
    ||| post == pre
    ||| (pre is Disconnected && post == (RelayStatus::Connecting {
        told_observed_addr: false,
        learnt_observed_addr: false,
    }))
    ||| (pre matches RelayStatus::Connecting { told_observed_addr: t, learnt_observed_addr: l }
        && (post matches RelayStatus::Connecting {
        told_observed_addr: t2,
        learnt_observed_addr: l2,
    } && (t ==> t2) && (l ==> l2)))
    ||| (pre matches RelayStatus::Connecting { told_observed_addr: t, learnt_observed_addr: l }
        && post is Connected)
    ||| (pre is Connected && post is PendingReservation)
    ||| (pre is PendingReservation && post is Relaying)
    ||| (!(pre is Unreachable) && post == disconnected_status(pre, policy))
    ||| (!(pre is Unreachable) && post is Unreachable)
}

/// The relay lifecycle follows the diagram: every status change the driver
/// performs — dialing out of a disconnected state, identify progress,
/// installing the circuit listener when connected, the reservation accepted
/// while pending, and failures under the reconnect policy — is an edge of
/// the diagram.  `Unreachable` is terminal, so failures reported for a relay
/// already given up on stand still.
pub proof fn lemma_relay_step_in_diagram(
    pre: RelayStatus,
    policy: ReconnectPolicy,
    step: RelayStep,
)
    requires
        step is DialAccepted ==> pre is Disconnected,
        step is CircuitListenerInstalled ==> pre is Connected,
        step is ReservationAccepted ==> pre is PendingReservation,
        step is GivenUp ==> !(pre is Unreachable),
    ensures
        diagram_edge(pre, relay_step_target(pre, policy, step), policy),
{
}

/// Closing twice is indistinguishable from closing once: the second shutdown
/// emits no event, asks for no listener removal, and leaves every observable
/// part of the state as the first left it.
pub proof fn lemma_close_idempotent(
    s0: Driver,
    s1: Driver,
    s2: Driver,
    e1: Seq<Effect>,
    e2: Seq<Effect>,
)
    requires
        close_post(s0, s1, e1),
        close_post(s1, s2, e2),
    ensures
        e2.len() == 1,
        forall|k: int| 0 <= k < e2.len() ==> !((#[trigger] e2[k]) is Event),
        s2.is_active == s1.is_active && s2.intents_closed == s1.intents_closed && s2.self_closed
            == s1.self_closed,
        s2.response_channels.len() == s1.response_channels.len(),
        s2.listeners@ == s1.listeners@,
        s2.relays@ == s1.relays@,
        s2.tracked_listeners@ == s1.tracked_listeners@,
        s2.protocols@ == s1.protocols@,
        s2.self_queue@ == s1.self_queue@,
{
    assert(s1.listeners@.len() == 0);
    assert(s2.listeners@ =~= s1.listeners@);
}

/// A connection-closed report yields exactly one `Disconnected` event — the
/// basis for shutdown emitting at most one per connected peer.
pub proof fn lemma_one_disconnected_per_close(
    pre: Driver,
    post: Driver,
    peer: String,
    address: String,
    cause: Option<String>,
    effects: Seq<Effect>,
)
    requires
        swarm_post(
            pre,
            post,
            (SwarmInput::ConnectionClosed { peer, address, cause }),
            effects,
        ),
    ensures
        count_disconnected(effects) == 1,
{
    let front = effects.drop_last();
    assert(effects.last() matches Effect::Event(Event::Disconnected { .. }));
    assert forall|k: int| 0 <= k < front.len() implies !((#[trigger] front[k]) matches
        Effect::Event(Event::Disconnected { .. })) by {
        assert(front[k] == effects[k]);
        match cause {
            None => {
                assert(effects.len() == 1);
            },
            Some(_) => {
                if pre.has_relay(peer@) {
                    assert(effects[k] matches Effect::Action(_));
                }
            },
        }
    }
    lemma_count_disconnected_zero(front);
}

/// A sequence without disconnected events counts zero of them.
proof fn lemma_count_disconnected_zero(effects: Seq<Effect>)
    requires
        forall|k: int|
            0 <= k < effects.len() ==> !((#[trigger] effects[k]) matches Effect::Event(
                Event::Disconnected { .. },
            )),
    ensures
        count_disconnected(effects) == 0,
    decreases effects.len(),
{
    if effects.len() > 0 {
        lemma_count_disconnected_zero(effects.drop_last());
    }
}

/// With no registered protocol, every request send is refused with a
/// protocol-not-found error; nothing reaches the overlay.
pub proof fn lemma_empty_protocols_refuse(
    pre: Driver,
    post: Driver,
    node: NodeId,
    req: crate::message::OutboundProtocolRequest,
    effects: Seq<Effect>,
)
    requires
        send_post(pre, post, node, OutboundProtocolMessage::Request(req), effects),
        pre.protocols@.len() == 0,
    ensures
        post == pre,
        one_error(effects, send_error_text(SendError::MessageProtocolNotFound(req.protocol))),
{
    assert(!pre.knows_protocol(req.protocol@));
}

/// With no configured relay, becoming ready dials nothing: the self-message
/// queue is left exactly as it was.
pub proof fn lemma_no_relays_no_dials(pre: Driver, post: Driver)
    requires
        dial_relays_post(pre, post),
        pre.relays@.len() == 0,
    ensures
        post.self_queue@ == pre.self_queue@,
{
    if !pre.self_closed {
        assert(crate::driver::reachable_relay_keys(pre.relays@).len() == 0);
        assert(post.self_queue@ =~= pre.self_queue@);
    }
}

/// A table key is present exactly when `get` finds a channel for it.
proof fn lemma_contains_get(t: crate::table::ResponseChannelTable, kv: ResponseKeyV)
    ensures
        t.contains_key(kv) <==> t.get(kv) is Some,
{
}

/// The registered-protocols table invariant survives every overlay report,
/// because inbound requests only arrive on protocols the node registered.
pub proof fn lemma_registered_preserved_swarm(
    pre: Driver,
    post: Driver,
    event: SwarmInput,
    effects: Seq<Effect>,
)
    requires
        swarm_post(pre, post, event, effects),
        table_protocols_registered(pre),
        event matches SwarmInput::MessageRequest { protocol, .. } ==> pre.knows_protocol(
            protocol@,
        ),
    ensures
        table_protocols_registered(post),
{
    match event {
        SwarmInput::MessageRequest { protocol, peer, request_id, bytes, channel } => {
            let kv0 = (ResponseKeyV {
                peer: true,
                node_text: peer@,
                protocol: protocol@,
                id: request_id@,
            });
            assert forall|kv: ResponseKeyV|
                #[trigger] post.response_channels.contains_key(kv) implies
                crate::driver::protocol_listed(post.protocols@, kv.protocol) by {
                lemma_contains_get(post.response_channels, kv);
                if kv != kv0 {
                    assert(post.response_channels.get(kv) == pre.response_channels.get(kv));
                    lemma_contains_get(pre.response_channels, kv);
                }
            }
        },
        _ => {
            assert forall|kv: ResponseKeyV|
                #[trigger] post.response_channels.contains_key(kv) implies
                crate::driver::protocol_listed(post.protocols@, kv.protocol) by {
                lemma_contains_get(post.response_channels, kv);
                lemma_contains_get(pre.response_channels, kv);
                match event {
                    SwarmInput::NewListenAddr { .. } => {},
                    SwarmInput::ListenerClosed { .. } => {},
                    SwarmInput::ConnectionClosed { .. } => {},
                    SwarmInput::OutgoingConnectionError { .. } => {},
                    SwarmInput::IdentifySent { .. } => {},
                    SwarmInput::IdentifyReceived { .. } => {},
                    _ => {},
                }
            }
        },
    }
}

/// The registered-protocols table invariant survives every host command:
/// commands only remove entries or clear the table.
pub proof fn lemma_registered_preserved_intent(
    pre: Driver,
    post: Driver,
    intent: crate::driver::Intent,
    effects: Seq<Effect>,
)
    requires
        crate::driver::intent_post(pre, post, intent, effects),
        table_protocols_registered(pre),
    ensures
        table_protocols_registered(post),
{
    assert forall|kv: ResponseKeyV|
        #[trigger] post.response_channels.contains_key(kv) implies
        crate::driver::protocol_listed(post.protocols@, kv.protocol) by {
        lemma_contains_get(post.response_channels, kv);
        lemma_contains_get(pre.response_channels, kv);
        match intent {
            crate::driver::Intent::DirectMessage { peer, message } => {
                match message {
                    OutboundProtocolMessage::Response(resp) => {
                        let kv0 = response_kv(peer, resp);
                        if kv != kv0 {
                            assert(post.response_channels.get(kv) == pre.response_channels.get(
                                kv,
                            ));
                        } else {
                            assert(post.response_channels.get(kv) is None);
                        }
                    },
                    OutboundProtocolMessage::Request(_) => {},
                }
            },
            _ => {},
        }
    }
}

/// Under `Attempts(0)` the first failure is terminal: whatever the state, a
/// failure leaves the relay `Unreachable`.
pub proof fn lemma_attempts_zero_terminal(pre: RelayStatus)
    ensures
        disconnected_status(pre, ReconnectPolicy::Attempts(0)) == RelayStatus::Unreachable,
{
}

/// `Unreachable` is terminal: no failure, under any policy, leaves it.
pub proof fn lemma_unreachable_terminal(policy: ReconnectPolicy)
    ensures
        disconnected_status(RelayStatus::Unreachable, policy) == RelayStatus::Unreachable,
{
}

/// One input the driver loop can take, with the data the matching handler
/// receives.
pub ghost enum DriverInput {
    /// A host command.
    Host(crate::driver::Intent),
    /// An overlay report.
    Overlay(SwarmInput),
    /// A self-message popped off the internal queue.
    SelfWork(Message),
    /// The outcome of a dial the host side performed.
    DialDone(NodeId, crate::driver::DialOutcome),
    /// The outcome of a circuit listen.
    RelayListenDone(String, Option<u64>),
    /// The outcome of a response delivery.
    Delivered(NodeId, OutboundProtocolResponse, bool),
}

/// The transition relation of one driver step, as the handlers' contracts
/// state it.
pub open spec fn step_rel(pre: Driver, post: Driver, input: DriverInput, effects: Seq<Effect>) -> bool {
    match input {
        DriverInput::Host(i) => crate::driver::intent_post(pre, post, i, effects),
        DriverInput::Overlay(ev) => swarm_post(pre, post, ev, effects),
        DriverInput::SelfWork(m) => crate::driver::self_message_post(pre, post, m, effects),
        DriverInput::DialDone(node, outcome) => crate::driver::dial_result_post(
            pre,
            post,
            node,
            outcome,
            effects,
        ),
        DriverInput::RelayListenDone(peer, listener) => crate::driver::relay_listen_result_post(
            pre,
            post,
            peer@,
            listener,
        ) && effects.len() == 0,
        DriverInput::Delivered(receiver, response, delivered) => post == pre
            && crate::driver::response_delivered_effects(receiver, response, delivered, effects),
    }
}

/// Whether `input` is a shutdown command, direct or internally queued.
pub open spec fn is_close_input(input: DriverInput) -> bool {
    ||| input matches DriverInput::Host(crate::driver::Intent::Close)
    ||| input matches DriverInput::SelfWork(Message::Intent(crate::driver::Intent::Close))
}

/// The side conditions the overlay guarantees for one input: request
/// correlation ids are fresh and arrive on registered protocols.
pub open spec fn input_ok(pre: Driver, input: DriverInput) -> bool {
    input matches DriverInput::Overlay(SwarmInput::MessageRequest {
        protocol,
        peer,
        request_id,
        ..
    }) ==> {
        &&& !pre.response_channels.contains_key(
            (ResponseKeyV {
                peer: true,
                node_text: peer@,
                protocol: protocol@,
                id: request_id@,
            }),
        )
        &&& pre.knows_protocol(protocol@)
    }
}

/// The table balance over one driver step (shutdown aside): the table grows
/// by the inbound requests announced and shrinks by the reply channels
/// consumed for sending; the registered-protocols invariant is kept.
pub proof fn lemma_step_balance(pre: Driver, post: Driver, input: DriverInput, effects: Seq<Effect>)
    requires
        step_rel(pre, post, input, effects),
        input_ok(pre, input),
        !is_close_input(input),
        pre.response_channels.wf(),
        table_protocols_registered(pre),
    ensures
        post.response_channels.len() == pre.response_channels.len() + count_inbound_requests(
            effects,
        ) - count_response_sends(effects),
        table_protocols_registered(post),
{
    match input {
        DriverInput::Host(i) => {
            lemma_table_balance_intent(pre, post, i, effects);
            lemma_registered_preserved_intent(pre, post, i, effects);
            lemma_intent_no_inbound(pre, post, i, effects);
        },
        DriverInput::Overlay(ev) => {
            lemma_table_balance_swarm(pre, post, ev, effects);
            lemma_counts_no_sends_swarm(pre, post, ev, effects);
            lemma_registered_preserved_swarm(pre, post, ev, effects);
        },
        DriverInput::SelfWork(m) => {
            match m {
                Message::ListenersReady => {
                    lemma_harmless(effects);
                    assert(post.response_channels == pre.response_channels);
                },
                Message::RelayConnected(p) => {
                    lemma_harmless(effects);
                },
                Message::Intent(i) => {
                    lemma_table_balance_intent(pre, post, i, effects);
                    lemma_registered_preserved_intent(pre, post, i, effects);
                    lemma_intent_no_inbound(pre, post, i, effects);
                },
            }
        },
        DriverInput::DialDone(node, outcome) => {
            lemma_harmless(effects);
            assert(post.response_channels == pre.response_channels);
        },
        DriverInput::RelayListenDone(peer, listener) => {
            lemma_harmless(effects);
            assert(post.response_channels == pre.response_channels);
        },
        DriverInput::Delivered(receiver, response, delivered) => {
            lemma_harmless(effects);
        },
    }
}

/// Host commands never announce an inbound request.
proof fn lemma_intent_no_inbound(
    pre: Driver,
    post: Driver,
    intent: crate::driver::Intent,
    effects: Seq<Effect>,
)
    requires
        crate::driver::intent_post(pre, post, intent, effects),
        !(intent is Close),
    ensures
        count_inbound_requests(effects) == 0,
{
    assert forall|k: int|
        0 <= k < effects.len() implies !((#[trigger] effects[k]) matches Effect::Event(
        Event::InboundRequest { .. })) by {}
    lemma_no_inbound_count(effects);
}

/// A sequence without inbound-request events counts zero of them.
proof fn lemma_no_inbound_count(effects: Seq<Effect>)
    requires
        forall|k: int|
            0 <= k < effects.len() ==> !((#[trigger] effects[k]) matches Effect::Event(
                Event::InboundRequest { .. },
            )),
    ensures
        count_inbound_requests(effects) == 0,
    decreases effects.len(),
{
    if effects.len() > 0 {
        lemma_no_inbound_count(effects.drop_last());
    }
}

/// Overlay reports never consume a reply channel.
proof fn lemma_counts_no_sends_swarm(
    pre: Driver,
    post: Driver,
    event: SwarmInput,
    effects: Seq<Effect>,
)
    requires
        swarm_post(pre, post, event, effects),
    ensures
        count_response_sends(effects) == 0,
    decreases effects.len(),
{
    assert forall|k: int|
        0 <= k < effects.len() implies !((#[trigger] effects[k]) matches Effect::Action(
        crate::driver::Action::SendResponse { .. })) by {
        match event {
            SwarmInput::ConnectionClosed { peer, address, cause } => {
                if k == effects.len() - 1 {
                } else {
                    assert(effects.drop_last()[k] == effects[k]);
                }
            },
            SwarmInput::OutgoingConnectionError { peer, error } => {
                if peer is Some && k < effects.len() - 1 {
                    assert(effects.drop_last()[k] == effects[k]);
                }
            },
            _ => {},
        }
    }
    lemma_no_sends_count(effects);
}

/// A sequence without response sends counts zero of them.
proof fn lemma_no_sends_count(effects: Seq<Effect>)
    requires
        forall|k: int|
            0 <= k < effects.len() ==> !((#[trigger] effects[k]) matches Effect::Action(
                crate::driver::Action::SendResponse { .. },
            )),
    ensures
        count_response_sends(effects) == 0,
    decreases effects.len(),
{
    if effects.len() > 0 {
        lemma_no_sends_count(effects.drop_last());
    }
}

/// The inbound requests announced over a whole run.
pub open spec fn sum_inbound(effs: Seq<Seq<Effect>>) -> int
    decreases effs.len(),
{
    if effs.len() == 0 {
        0int
    } else {
        sum_inbound(effs.drop_last()) + count_inbound_requests(effs.last())
    }
}

/// The reply channels consumed over a whole run.
pub open spec fn sum_sends(effs: Seq<Seq<Effect>>) -> int
    decreases effs.len(),
{
    if effs.len() == 0 {
        0int
    } else {
        sum_sends(effs.drop_last()) + count_response_sends(effs.last())
    }
}

/// A run of the driver: consecutive states joined by the step relation, each
/// state well-formed as the handlers guarantee.
pub open spec fn valid_run(states: Seq<Driver>, inputs: Seq<DriverInput>, effs: Seq<Seq<Effect>>) -> bool {
    &&& states.len() == inputs.len() + 1
    &&& effs.len() == inputs.len()
    &&& (forall|k: int|
        0 <= k < inputs.len() ==> step_rel(states[k], states[k + 1], #[trigger] inputs[k], effs[k]))
    &&& (forall|k: int| 0 <= k < states.len() ==> (#[trigger] states[k]).wf())
    &&& (forall|k: int| 0 <= k < inputs.len() ==> input_ok(states[k], #[trigger] inputs[k]))
    &&& (forall|k: int| 0 <= k < inputs.len() ==> !is_close_input(#[trigger] inputs[k]))
}

/// The response-channel table size at any moment equals the inbound requests
/// announced so far minus the reply channels consumed so far: over any run
/// that starts with an empty, well-kept table and does not shut down, the
/// final table size is the running balance of the emitted effects.
pub proof fn lemma_table_balance_run(
    states: Seq<Driver>,
    inputs: Seq<DriverInput>,
    effs: Seq<Seq<Effect>>,
)
    requires
        valid_run(states, inputs, effs),
        table_protocols_registered(states[0]),
    ensures
        states.last().response_channels.len() == states[0].response_channels.len() + sum_inbound(
            effs,
        ) - sum_sends(effs),
        table_protocols_registered(states.last()),
    decreases inputs.len(),
{
    if inputs.len() == 0 {
        assert(states.last() == states[0]);
    } else {
        let n = inputs.len() as int;
        let states2 = states.drop_last();
        let inputs2 = inputs.drop_last();
        let effs2 = effs.drop_last();
        assert forall|k: int| 0 <= k < inputs2.len() implies step_rel(
            states2[k],
            states2[k + 1],
            #[trigger] inputs2[k],
            effs2[k],
        ) by {
            assert(inputs2[k] == inputs[k]);
            assert(states2[k] == states[k]);
            assert(states2[k + 1] == states[k + 1]);
            assert(effs2[k] == effs[k]);
            assert(step_rel(states[k], states[k + 1], inputs[k], effs[k]));
        }
        assert forall|k: int| 0 <= k < states2.len() implies (#[trigger] states2[k]).wf() by {
            assert(states2[k] == states[k]);
            assert(states[k].wf());
        }
        assert forall|k: int| 0 <= k < inputs2.len() implies input_ok(
            states2[k],
            #[trigger] inputs2[k],
        ) by {
            assert(inputs2[k] == inputs[k]);
            assert(states2[k] == states[k]);
            assert(input_ok(states[k], inputs[k]));
        }
        assert forall|k: int| 0 <= k < inputs2.len() implies !is_close_input(
            #[trigger] inputs2[k],
        ) by {
            assert(inputs2[k] == inputs[k]);
            assert(!is_close_input(inputs[k]));
        }
        assert(valid_run(states2, inputs2, effs2));
        lemma_table_balance_run(states2, inputs2, effs2);
        assert(states2.last() == states[n - 1]);
        assert(step_rel(states[n - 1], states[n], inputs[n - 1], effs[n - 1]));
        assert(input_ok(states[n - 1], inputs[n - 1]));
        lemma_step_balance(states[n - 1], states[n], inputs[n - 1], effs[n - 1]);
        assert(states.last() == states[n]);
        assert(effs.last() == effs[n - 1]);
    }
}

} // verus!

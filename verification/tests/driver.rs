//! Scenario tests driving the control-plane state machine with scripted
//! intents and overlay reports, checking the emitted events and actions.

use p2p_core::config::{Config, Identity, ReconnectPolicy};
use p2p_core::driver::{
    Action, DialOutcome, Driver, Effect, Intent, Message, SwarmInput, DELAY_SEC_RECONNECT,
};
use p2p_core::event::Event;
use p2p_core::message::{InboundProtocolRequest, OutboundProtocolMessage};
use p2p_core::node::NodeId;
use p2p_core::relay::RelayStatus;
use p2p_core::types;

fn fresh_peer_id() -> String {
    libp2p_identity::Keypair::generate_ed25519()
        .public()
        .to_peer_id()
        .to_string()
}

fn config_with(protocols: Vec<&str>, relays: Vec<String>, policy: ReconnectPolicy) -> Config {
    Config {
        identity: Identity::Random,
        msg_protocols: protocols.into_iter().map(String::from).collect(),
        stream_protocols: vec![],
        relay_addrs: relays,
        reconn_policy: policy,
        idle_conn_timeout: 0,
    }
}

#[test]
fn construction_accepts_empty_config() {
    let d = Driver::new(Config::default());
    assert!(d.is_ok());
    assert_eq!(d.unwrap().relays.len(), 0);
}

#[test]
fn construction_rejects_invalid_protocol_name() {
    let cfg = config_with(vec!["echo-without-slash"], vec![], ReconnectPolicy::Always);
    assert!(Driver::new(cfg).is_err());
    let cfg2 = config_with(vec!["/ok/1"], vec![], ReconnectPolicy::Always);
    assert!(Driver::new(cfg2).is_ok());
}

#[test]
fn invalid_relay_addresses_are_silently_dropped() {
    let pid = fresh_peer_id();
    let cfg = config_with(
        vec![],
        vec![
            String::from("not an address"),
            String::from("/ip4/127.0.0.1/tcp/4001"),
            format!("/ip4/127.0.0.1/tcp/4001/p2p/{pid}"),
        ],
        ReconnectPolicy::Always,
    );
    let d = Driver::new(cfg).unwrap();
    assert_eq!(d.relays.len(), 1);
    assert_eq!(d.relays[0].0, pid);
    assert_eq!(d.relays[0].1.status, RelayStatus::Disconnected(0));
}

#[test]
fn at_most_one_relay_record_per_peer() {
    let pid = fresh_peer_id();
    let cfg = config_with(
        vec![],
        vec![
            format!("/ip4/127.0.0.1/tcp/4001/p2p/{pid}"),
            format!("/ip4/10.0.0.9/tcp/4002/p2p/{pid}"),
        ],
        ReconnectPolicy::Always,
    );
    let d = Driver::new(cfg).unwrap();
    assert_eq!(d.relays.len(), 1);
}

#[test]
fn untracked_listener_address_only_reports() {
    let mut d = Driver::new(Config::default()).unwrap();
    let effects = d.on_swarm_event(SwarmInput::NewListenAddr {
        listener_id: 77,
        address: String::from("/ip4/0.0.0.0/tcp/1"),
    });
    // ListeningOn, plus Ready: nothing is tracked and no relay is configured.
    assert_eq!(effects.len(), 2);
    assert!(matches!(&effects[0], Effect::Event(Event::ListeningOn { .. })));
    assert_eq!(effects[1], Effect::Event(Event::Ready));
    assert_eq!(d.pop_self_message(), None);
}

#[test]
fn self_queue_drains_in_order() {
    let mut d = Driver::new(Config::default()).unwrap();
    let a = NodeId::Peer(fresh_peer_id());
    let b = NodeId::Peer(fresh_peer_id());
    assert!(d.send_dial_intent(a.clone(), None).is_empty());
    assert!(d.send_dial_intent(b.clone(), None).is_empty());
    assert_eq!(d.pop_self_message(), Some(Message::Intent(Intent::Dial(a))));
    assert_eq!(d.pop_self_message(), Some(Message::Intent(Intent::Dial(b))));
    assert_eq!(d.pop_self_message(), None);
}

#[test]
fn delayed_dial_is_handed_to_the_host_side() {
    let mut d = Driver::new(Config::default()).unwrap();
    let node = NodeId::Peer(fresh_peer_id());
    let effects = d.send_dial_intent(node.clone(), Some(15));
    assert_eq!(
        effects,
        vec![Effect::Action(Action::ScheduleDial { node, delay_secs: 15 })]
    );
    assert_eq!(d.pop_self_message(), None);
}

#[test]
fn all_listener_binds_failing_fails_construction() {
    let mut d = Driver::new(Config::default()).unwrap();
    assert!(d.begin_listen(None, None, None).is_err());
}

#[test]
fn one_listener_bind_suffices() {
    let mut d = Driver::new(Config::default()).unwrap();
    assert!(d.begin_listen(Some(1), None, None).is_ok());
    assert!(d.required_tcp && !d.required_quic && !d.required_ws);
}

#[test]
fn empty_protocols_fail_every_send() {
    let mut d = Driver::new(Config::default()).unwrap();
    let peer = NodeId::Peer(fresh_peer_id());
    let msg = OutboundProtocolMessage::new_request(String::from("/echo/1"), b"HELLO".to_vec());
    let effects = d.on_intent(Intent::DirectMessage { peer, message: msg });
    assert_eq!(effects.len(), 1);
    match &effects[0] {
        Effect::Event(Event::Error { cause }) => {
            assert_eq!(cause, "Message protocol /echo/1 was not found");
        }
        other => panic!("expected an error event, got {other:?}"),
    }
}

#[test]
fn unknown_protocol_send_makes_no_outbound_request() {
    let cfg = config_with(vec!["/echo/1"], vec![], ReconnectPolicy::Always);
    let mut d = Driver::new(cfg).unwrap();
    let peer = NodeId::Peer(fresh_peer_id());
    let msg = OutboundProtocolMessage::new_request(
        String::from("/does-not-exist"),
        b"x".to_vec(),
    );
    let effects = d.on_intent(Intent::DirectMessage { peer, message: msg });
    assert_eq!(effects.len(), 1);
    match &effects[0] {
        Effect::Event(Event::Error { cause }) => {
            assert_eq!(cause, "Message protocol /does-not-exist was not found");
        }
        other => panic!("expected an error event, got {other:?}"),
    }
}

#[test]
fn request_to_address_without_peer_tail_is_invalid() {
    let cfg = config_with(vec!["/echo/1"], vec![], ReconnectPolicy::Always);
    let mut d = Driver::new(cfg).unwrap();
    let addr = NodeId::try_from_base(&types::NodeId::Address {
        address: String::from("/ip4/127.0.0.1/tcp/4001"),
    })
    .unwrap();
    let effects = d.on_intent(Intent::DirectMessage {
        peer: addr,
        message: OutboundProtocolMessage::new_request(String::from("/echo/1"), vec![1]),
    });
    match &effects[..] {
        [Effect::Event(Event::Error { cause })] => {
            assert_eq!(cause, "Address /ip4/127.0.0.1/tcp/4001 is invalid");
        }
        other => panic!("expected an error event, got {other:?}"),
    }
}

#[test]
fn echo_exchange_within_the_model() {
    let cfg = config_with(vec!["/echo/1"], vec![], ReconnectPolicy::Always);
    let mut a = Driver::new(cfg.clone()).unwrap();
    let mut b = Driver::new(cfg).unwrap();
    let a_pid = fresh_peer_id();
    let b_pid = fresh_peer_id();

    // A sends the request.
    let effects = a.on_intent(Intent::DirectMessage {
        peer: NodeId::Peer(b_pid.clone()),
        message: OutboundProtocolMessage::new_request(String::from("/echo/1"), b"HELLO".to_vec()),
    });
    assert_eq!(effects.len(), 2);
    match &effects[0] {
        Effect::Action(Action::SendRequest { peer, protocol, bytes }) => {
            assert_eq!(peer, &b_pid);
            assert_eq!(protocol, "/echo/1");
            assert_eq!(bytes, b"HELLO");
        }
        other => panic!("expected a send action, got {other:?}"),
    }
    match &effects[1] {
        Effect::Event(Event::OutboundRequest { receiver, request }) => {
            assert_eq!(receiver, &types::NodeId::Peer { peer_id: b_pid.clone() });
            assert_eq!(request.bytes, b"HELLO");
        }
        other => panic!("expected an outbound-request event, got {other:?}"),
    }

    // B receives it; the reply channel is stored under handle 7.
    let effects = b.on_swarm_event(SwarmInput::MessageRequest {
        protocol: String::from("/echo/1"),
        peer: a_pid.clone(),
        request_id: String::from("X"),
        bytes: b"HELLO".to_vec(),
        channel: 7,
    });
    assert_eq!(b.response_channels.size(), 1);
    let request = match &effects[..] {
        [Effect::Event(Event::InboundRequest { sender, request })] => {
            assert_eq!(sender, &types::NodeId::Peer { peer_id: a_pid.clone() });
            assert_eq!(request.id, "X");
            request.clone()
        }
        other => panic!("expected an inbound-request event, got {other:?}"),
    };

    // B answers; the channel is consumed atomically with the send.
    let reply = OutboundProtocolMessage::new_response(request, b"HELLO".to_vec());
    let effects = b.on_intent(Intent::DirectMessage {
        peer: NodeId::Peer(a_pid.clone()),
        message: reply.clone(),
    });
    assert_eq!(b.response_channels.size(), 0);
    let response = match &effects[..] {
        [Effect::Action(Action::SendResponse { channel, receiver, response })] => {
            assert_eq!(*channel, 7);
            assert_eq!(receiver, &NodeId::Peer(a_pid.clone()));
            response.clone()
        }
        other => panic!("expected a send-response action, got {other:?}"),
    };

    // The delivery outcome comes back; the host hears the outbound response.
    let effects = b.on_response_delivered(NodeId::Peer(a_pid.clone()), response, true);
    match &effects[..] {
        [Effect::Event(Event::OutboundResponse { receiver, response })] => {
            assert_eq!(receiver, &types::NodeId::Peer { peer_id: a_pid.clone() });
            assert_eq!(response.id, "X");
        }
        other => panic!("expected an outbound-response event, got {other:?}"),
    }

    // A hears the response.
    let effects = a.on_swarm_event(SwarmInput::MessageResponse {
        protocol: String::from("/echo/1"),
        peer: b_pid.clone(),
        request_id: String::from("X"),
        bytes: b"HELLO".to_vec(),
    });
    match &effects[..] {
        [Effect::Event(Event::InboundResponse { sender, response })] => {
            assert_eq!(sender, &types::NodeId::Peer { peer_id: b_pid });
            assert_eq!(response.bytes, b"HELLO");
        }
        other => panic!("expected an inbound-response event, got {other:?}"),
    }

    // A second response for the same exchange is refused: the channel is gone.
    let request_again = InboundProtocolRequest {
        protocol: String::from("/echo/1"),
        bytes: b"HELLO".to_vec(),
        id: String::from("X"),
    };
    let effects = b.on_intent(Intent::DirectMessage {
        peer: NodeId::Peer(a_pid.clone()),
        message: OutboundProtocolMessage::new_response(request_again, b"AGAIN".to_vec()),
    });
    match &effects[..] {
        [Effect::Event(Event::Error { cause })] => {
            assert_eq!(
                cause,
                &format!("Response channel for ({a_pid}, /echo/1, X) was not found")
            );
        }
        other => panic!("expected an error event, got {other:?}"),
    }
}

#[test]
fn dropped_reply_channel_surfaces_as_error() {
    let cfg = config_with(vec!["/echo/1"], vec![], ReconnectPolicy::Always);
    let mut d = Driver::new(cfg).unwrap();
    let pid = fresh_peer_id();
    d.on_swarm_event(SwarmInput::MessageRequest {
        protocol: String::from("/echo/1"),
        peer: pid.clone(),
        request_id: String::from("1"),
        bytes: vec![],
        channel: 3,
    });
    let request = InboundProtocolRequest {
        protocol: String::from("/echo/1"),
        bytes: vec![],
        id: String::from("1"),
    };
    let effects = d.on_intent(Intent::DirectMessage {
        peer: NodeId::Peer(pid.clone()),
        message: OutboundProtocolMessage::new_response(request, vec![0u8; 16]),
    });
    let response = match &effects[..] {
        [Effect::Action(Action::SendResponse { response, .. })] => response.clone(),
        other => panic!("expected a send-response action, got {other:?}"),
    };
    // The overlay dropped the channel (for example an oversize response).
    let effects = d.on_response_delivered(NodeId::Peer(pid.clone()), response, false);
    match &effects[..] {
        [Effect::Event(Event::Error { cause })] => {
            assert_eq!(
                cause,
                &format!("Response channel for ({pid}, /echo/1, 1) is closed")
            );
        }
        other => panic!("expected an error event, got {other:?}"),
    }
    // The entry stays consumed either way.
    assert_eq!(d.response_channels.size(), 0);
}

#[test]
fn connect_then_disconnect_yields_disconnected() {
    let mut d = Driver::new(Config::default()).unwrap();
    let pid = fresh_peer_id();
    let addr = format!("/ip4/192.168.1.9/tcp/4001/p2p/{pid}");

    let effects = d.on_intent(Intent::Dial(NodeId::Peer(pid.clone())));
    assert_eq!(effects, vec![Effect::Action(Action::Dial(NodeId::Peer(pid.clone())))]);

    let effects = d.on_swarm_event(SwarmInput::ConnectionEstablished { peer: pid.clone() });
    assert_eq!(
        effects,
        vec![Effect::Event(Event::Connected {
            node: types::NodeId::Peer { peer_id: pid.clone() }
        })]
    );

    let effects = d.on_intent(Intent::Disconnect(NodeId::Peer(pid.clone())));
    assert_eq!(effects, vec![Effect::Action(Action::DisconnectPeer(pid.clone()))]);

    let effects = d.on_swarm_event(SwarmInput::ConnectionClosed {
        peer: pid.clone(),
        address: addr.clone(),
        cause: None,
    });
    assert_eq!(
        effects,
        vec![Effect::Event(Event::Disconnected {
            node: types::NodeId::Address { address: addr }
        })]
    );
}

#[test]
fn disconnect_by_address_needs_peer_tail() {
    let mut d = Driver::new(Config::default()).unwrap();
    let pid = fresh_peer_id();
    let with_tail = NodeId::try_from_base(&types::NodeId::Address {
        address: format!("/ip4/127.0.0.1/tcp/4001/p2p/{pid}"),
    })
    .unwrap();
    let effects = d.on_intent(Intent::Disconnect(with_tail));
    assert_eq!(effects, vec![Effect::Action(Action::DisconnectPeer(pid))]);

    let without_tail = NodeId::try_from_base(&types::NodeId::Address {
        address: String::from("/ip4/127.0.0.1/tcp/4001"),
    })
    .unwrap();
    let effects = d.on_intent(Intent::Disconnect(without_tail));
    assert!(effects.is_empty());
}

#[test]
fn relay_reservation_walks_the_diagram() {
    let pid = fresh_peer_id();
    let relay_addr = format!("/ip4/127.0.0.1/tcp/4001/p2p/{pid}");
    let cfg = config_with(vec![], vec![relay_addr.clone()], ReconnectPolicy::Always);
    let mut d = Driver::new(cfg).unwrap();
    assert!(d.begin_listen(Some(1), Some(2), Some(3)).is_ok());

    // The three transport listeners come up; the last completes the set.
    for (id, addr) in [(1, "/ip4/0.0.0.0/tcp/40001"), (2, "/ip4/0.0.0.0/udp/4/quic-v1"), (3, "/ip4/0.0.0.0/tcp/40002/ws")] {
        let effects = d.on_swarm_event(SwarmInput::NewListenAddr {
            listener_id: id,
            address: String::from(addr),
        });
        assert!(matches!(&effects[0], Effect::Event(Event::ListeningOn { .. })));
    }
    assert_eq!(d.pop_self_message(), Some(Message::ListenersReady));

    // The ready signal queues one dial intent for the relay.
    let effects = d.on_self_message(Message::ListenersReady);
    assert!(effects.is_empty());
    assert_eq!(
        d.pop_self_message(),
        Some(Message::Intent(Intent::Dial(NodeId::Peer(pid.clone()))))
    );

    // Dialing the relay targets its configured address.
    let effects = d.on_intent(Intent::Dial(NodeId::Peer(pid.clone())));
    assert_eq!(
        effects,
        vec![Effect::Action(Action::DialRelay { peer: pid.clone(), addr: relay_addr.clone() })]
    );
    let effects = d.on_dial_result(NodeId::Peer(pid.clone()), DialOutcome::Dialed);
    assert!(effects.is_empty());
    assert_eq!(
        d.relays[0].1.status,
        RelayStatus::Connecting { told_observed_addr: false, learnt_observed_addr: false }
    );

    // The observed-address exchange completes.
    d.on_swarm_event(SwarmInput::IdentifySent { peer: pid.clone() });
    d.on_swarm_event(SwarmInput::IdentifyReceived {
        peer: pid.clone(),
        observed_addr: String::from("/ip4/203.0.113.5/tcp/40001"),
    });
    assert_eq!(d.relays[0].1.status, RelayStatus::Connected);
    assert_eq!(d.pop_self_message(), Some(Message::RelayConnected(pid.clone())));

    // The circuit listener goes onto the relay.
    let effects = d.on_self_message(Message::RelayConnected(pid.clone()));
    assert_eq!(
        effects,
        vec![Effect::Action(Action::ListenOnRelay { peer: pid.clone(), addr: relay_addr.clone() })]
    );
    d.on_relay_listen_result(pid.clone(), Some(9));
    assert_eq!(d.relays[0].1.status, RelayStatus::PendingReservation);

    // The relay accepts the reservation.
    d.on_swarm_event(SwarmInput::ReservationAccepted { relay_peer: pid.clone() });
    assert_eq!(d.relays[0].1.status, RelayStatus::Relaying);

    // The circuit listener yields its address: ListeningOn, then Ready.
    let effects = d.on_swarm_event(SwarmInput::NewListenAddr {
        listener_id: 9,
        address: format!("{relay_addr}/p2p-circuit"),
    });
    assert_eq!(effects.len(), 2);
    assert!(matches!(&effects[0], Effect::Event(Event::ListeningOn { .. })));
    assert_eq!(effects[1], Effect::Event(Event::Ready));
}

#[test]
fn reconnect_attempts_two_goes_silent_after_two_failures() {
    let pid = fresh_peer_id();
    let relay_addr = format!("/ip4/127.0.0.1/tcp/4001/p2p/{pid}");
    let cfg = config_with(vec![], vec![relay_addr.clone()], ReconnectPolicy::Attempts(2));
    let mut d = Driver::new(cfg).unwrap();

    // The established relay connection is severed.
    let effects = d.on_swarm_event(SwarmInput::ConnectionClosed {
        peer: pid.clone(),
        address: relay_addr.clone(),
        cause: Some(String::from("io error")),
    });
    assert_eq!(effects.len(), 3);
    assert_eq!(effects[0], Effect::Action(Action::DisconnectPeer(pid.clone())));
    assert_eq!(
        effects[1],
        Effect::Action(Action::ScheduleDial {
            node: NodeId::Peer(pid.clone()),
            delay_secs: DELAY_SEC_RECONNECT
        })
    );
    assert!(matches!(&effects[2], Effect::Event(Event::Disconnected { .. })));
    assert_eq!(d.relays[0].1.status, RelayStatus::Disconnected(1));

    // The re-dial fails: the relay becomes unreachable, without a retry.
    let effects = d.on_swarm_event(SwarmInput::ConnectionClosed {
        peer: pid.clone(),
        address: relay_addr,
        cause: Some(String::from("io error")),
    });
    assert_eq!(effects.len(), 2);
    assert_eq!(effects[0], Effect::Action(Action::DisconnectPeer(pid.clone())));
    assert!(matches!(&effects[1], Effect::Event(Event::Disconnected { .. })));
    assert_eq!(d.relays[0].1.status, RelayStatus::Unreachable);

    // Further dial intents for the relay are dropped silently.
    let effects = d.on_intent(Intent::Dial(NodeId::Peer(pid.clone())));
    assert!(effects.is_empty());

    // Unreachable is terminal: another failure schedules no re-dial and the
    // status stays put.
    let effects = d.on_swarm_event(SwarmInput::ConnectionClosed {
        peer: pid.clone(),
        address: format!("/ip4/127.0.0.1/tcp/4001/p2p/{pid}"),
        cause: Some(String::from("io error")),
    });
    assert_eq!(effects.len(), 2);
    assert_eq!(effects[0], Effect::Action(Action::DisconnectPeer(pid)));
    assert!(matches!(&effects[1], Effect::Event(Event::Disconnected { .. })));
    assert_eq!(d.relays[0].1.status, RelayStatus::Unreachable);
}

#[test]
fn stale_reservation_acceptance_is_ignored() {
    let pid = fresh_peer_id();
    let relay_addr = format!("/ip4/127.0.0.1/tcp/4001/p2p/{pid}");
    let cfg = config_with(vec![], vec![relay_addr], ReconnectPolicy::Always);
    let mut d = Driver::new(cfg).unwrap();
    // No reservation is pending: the acceptance must not skip states.
    let effects = d.on_swarm_event(SwarmInput::ReservationAccepted { relay_peer: pid });
    assert!(effects.is_empty());
    assert_eq!(d.relays[0].1.status, RelayStatus::Disconnected(0));
}

#[test]
fn unreachable_dial_surfaces_under_policy_never() {
    let cfg = config_with(vec![], vec![], ReconnectPolicy::Never);
    let mut d = Driver::new(cfg).unwrap();
    let pid = fresh_peer_id();
    let effects = d.on_dial_result(
        NodeId::Peer(pid.clone()),
        DialOutcome::Recoverable(String::from("connection refused")),
    );
    match &effects[..] {
        [Effect::Event(Event::Error { cause })] => {
            assert_eq!(cause, &format!("Peer {pid} cannot be dialed: connection refused"));
        }
        other => panic!("expected an error event, got {other:?}"),
    }
}

#[test]
fn recoverable_dial_failure_retries_under_policy_always() {
    let mut d = Driver::new(Config::default()).unwrap();
    let pid = fresh_peer_id();
    let effects = d.on_dial_result(
        NodeId::Peer(pid.clone()),
        DialOutcome::Recoverable(String::from("aborted")),
    );
    assert_eq!(
        effects,
        vec![Effect::Action(Action::ScheduleDial { node: NodeId::Peer(pid), delay_secs: 1 })]
    );
}

#[test]
fn message_failures_surface_with_their_cause() {
    let mut d = Driver::new(Config::default()).unwrap();
    let effects = d.on_swarm_event(SwarmInput::OutboundFailure {
        peer: String::from("QmX"),
        error: String::from("response too large"),
    });
    match &effects[..] {
        [Effect::Event(Event::Error { cause })] => {
            assert_eq!(cause, "Error while sending a message to QmX: response too large");
        }
        other => panic!("expected an error event, got {other:?}"),
    }
    let effects = d.on_swarm_event(SwarmInput::InboundFailure {
        peer: String::from("QmX"),
        error: String::from("timeout"),
    });
    match &effects[..] {
        [Effect::Event(Event::Error { cause })] => {
            assert_eq!(cause, "Error while receiving a message from QmX: timeout");
        }
        other => panic!("expected an error event, got {other:?}"),
    }
}

#[test]
fn close_disconnects_everything_and_clears_the_table() {
    let cfg = config_with(vec!["/echo/1"], vec![], ReconnectPolicy::Always);
    let mut d = Driver::new(cfg).unwrap();
    d.begin_listen(Some(1), Some(2), None).unwrap();
    d.on_swarm_event(SwarmInput::NewListenAddr {
        listener_id: 1,
        address: String::from("/ip4/0.0.0.0/tcp/40001"),
    });
    d.on_swarm_event(SwarmInput::MessageRequest {
        protocol: String::from("/echo/1"),
        peer: fresh_peer_id(),
        request_id: String::from("1"),
        bytes: vec![],
        channel: 1,
    });
    assert_eq!(d.response_channels.size(), 1);

    let effects = d.on_intent(Intent::Close);
    assert_eq!(effects[0], Effect::Action(Action::DisconnectAll));
    assert_eq!(effects[1], Effect::Action(Action::RemoveListener(1)));
    assert_eq!(effects.len(), 2);
    assert!(!d.is_active);
    assert_eq!(d.response_channels.size(), 0);

    // Intents queued before the close still drain, but no new self-work is accepted.
    d.send_self_message(Message::ListenersReady);
    assert_eq!(d.pop_self_message(), None);
    assert!(d.should_stop(true, true));
}

#[test]
fn closing_twice_equals_closing_once() {
    let mut d = Driver::new(Config::default()).unwrap();
    d.begin_listen(Some(1), None, None).unwrap();
    d.on_swarm_event(SwarmInput::NewListenAddr {
        listener_id: 1,
        address: String::from("/ip4/0.0.0.0/tcp/40001"),
    });
    let first = d.on_intent(Intent::Close);
    assert_eq!(first.len(), 2);
    let second = d.on_intent(Intent::Close);
    // The second close emits no event and asks for no listener removal.
    assert_eq!(second, vec![Effect::Action(Action::DisconnectAll)]);
}

#[test]
fn close_during_send_terminates_the_stream() {
    let cfg = config_with(vec!["/echo/1"], vec![], ReconnectPolicy::Always);
    let mut d = Driver::new(cfg).unwrap();
    let pid = fresh_peer_id();
    let effects = d.on_intent(Intent::DirectMessage {
        peer: NodeId::Peer(pid.clone()),
        message: OutboundProtocolMessage::new_request(String::from("/echo/1"), vec![1]),
    });
    assert_eq!(effects.len(), 2);
    let effects = d.on_intent(Intent::Close);
    assert_eq!(effects, vec![Effect::Action(Action::DisconnectAll)]);
    // One disconnect per still-connected peer may follow, then the loop stops.
    let effects = d.on_swarm_event(SwarmInput::ConnectionClosed {
        peer: pid.clone(),
        address: format!("/ip4/10.0.0.2/tcp/1/p2p/{pid}"),
        cause: None,
    });
    assert_eq!(effects.len(), 1);
    assert!(matches!(&effects[0], Effect::Event(Event::Disconnected { .. })));
    assert!(d.should_stop(true, true));
}

#[test]
fn empty_relay_list_skips_relay_dialing() {
    let mut d = Driver::new(Config::default()).unwrap();
    let effects = d.on_self_message(Message::ListenersReady);
    assert!(effects.is_empty());
    assert_eq!(d.pop_self_message(), None);
}

#[test]
fn mdns_discoveries_become_address_book_actions() {
    let mut d = Driver::new(Config::default()).unwrap();
    let effects = d.on_swarm_event(SwarmInput::MdnsDiscovered {
        peers: vec![(String::from("QmA"), String::from("/ip4/10.0.0.3/tcp/1"))],
    });
    assert_eq!(
        effects,
        vec![Effect::Action(Action::AddPeerAddress {
            peer: String::from("QmA"),
            addr: String::from("/ip4/10.0.0.3/tcp/1")
        })]
    );
    let effects = d.on_swarm_event(SwarmInput::MdnsExpired {
        addrs: vec![String::from("/ip4/10.0.0.3/tcp/1")],
    });
    assert_eq!(
        effects,
        vec![Effect::Action(Action::RemoveExternalAddress {
            addr: String::from("/ip4/10.0.0.3/tcp/1")
        })]
    );
}

#[test]
fn failed_circuit_listener_reconnects_after_cooldown() {
    let pid = fresh_peer_id();
    let relay_addr = format!("/ip4/127.0.0.1/tcp/4001/p2p/{pid}");
    let cfg = config_with(vec![], vec![relay_addr], ReconnectPolicy::Always);
    let mut d = Driver::new(cfg).unwrap();
    d.on_relay_listen_result(pid.clone(), Some(9));
    let effects = d.on_swarm_event(SwarmInput::ListenerClosed { listener_id: 9, is_error: true });
    assert_eq!(effects.len(), 3);
    assert_eq!(effects[0], Effect::Event(Event::Ready));
    assert_eq!(effects[1], Effect::Action(Action::DisconnectPeer(pid.clone())));
    assert_eq!(
        effects[2],
        Effect::Action(Action::ScheduleDial { node: NodeId::Peer(pid), delay_secs: 125 })
    );
}

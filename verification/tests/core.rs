//! Tests of the core value types: relay records, byte fitting, identifiers,
//! the response-channel table, and the protocol dispatch container.

use p2p_core::behaviour::MultiBehaviour;
use p2p_core::bytes::FitIntoArr;
use p2p_core::config::{Identity, ReconnectPolicy};
use p2p_core::host;
use p2p_core::keys;
use p2p_core::node::NodeId;
use p2p_core::relay::{Relay, RelayConnectionUpdate, RelayStatus};
use p2p_core::table::{ResponseChannelTable, ResponseKey};
use p2p_core::types;

fn fresh_peer_id() -> String {
    libp2p_identity::Keypair::generate_ed25519()
        .public()
        .to_peer_id()
        .to_string()
}

#[test]
fn relay_starts_disconnected() {
    let r = Relay::new(String::from("/ip4/127.0.0.1/tcp/4001"));
    assert_eq!(r.status, RelayStatus::Disconnected(0));
    assert_eq!(r.addr(), "/ip4/127.0.0.1/tcp/4001");
    assert!(!r.is_unreachable());
    assert!(!r.is_connected());
    assert!(!r.is_relaying());
}

#[test]
fn relay_full_lifecycle() {
    let mut r = Relay::new(String::from("/ip4/10.0.0.1/tcp/1"));
    r.set_connecting();
    assert_eq!(
        r.status,
        RelayStatus::Connecting { told_observed_addr: false, learnt_observed_addr: false }
    );
    r.update_connecting(RelayConnectionUpdate::SentObservedAddr);
    assert_eq!(
        r.status,
        RelayStatus::Connecting { told_observed_addr: true, learnt_observed_addr: false }
    );
    r.update_connecting(RelayConnectionUpdate::LearntObservedAddr(String::from(
        "/ip4/8.8.8.8/tcp/9",
    )));
    assert_eq!(r.status, RelayStatus::Connected);
    assert!(r.is_connected());
    r.set_pending_reservation();
    assert_eq!(r.status, RelayStatus::PendingReservation);
    r.set_relaying();
    assert!(r.is_relaying());
}

#[test]
fn relay_update_ignored_outside_connecting() {
    let mut r = Relay::new(String::from("/ip4/10.0.0.1/tcp/1"));
    r.update_connecting(RelayConnectionUpdate::SentObservedAddr);
    assert_eq!(r.status, RelayStatus::Disconnected(0));
}

#[test]
fn reconnect_policy_never_is_terminal() {
    let mut r = Relay::new(String::from("/ip4/10.0.0.1/tcp/1"));
    r.set_disconnected(&ReconnectPolicy::Never);
    assert_eq!(r.status, RelayStatus::Unreachable);
}

#[test]
fn reconnect_policy_always_resets_counter() {
    let mut r = Relay::new(String::from("/ip4/10.0.0.1/tcp/1"));
    r.set_connecting();
    r.set_disconnected(&ReconnectPolicy::Always);
    assert_eq!(r.status, RelayStatus::Disconnected(0));
    r.set_disconnected(&ReconnectPolicy::Always);
    assert_eq!(r.status, RelayStatus::Disconnected(0));
}

#[test]
fn reconnect_policy_attempts_counts_then_gives_up() {
    let mut r = Relay::new(String::from("/ip4/10.0.0.1/tcp/1"));
    r.set_disconnected(&ReconnectPolicy::Attempts(2));
    assert_eq!(r.status, RelayStatus::Disconnected(1));
    r.set_disconnected(&ReconnectPolicy::Attempts(2));
    assert_eq!(r.status, RelayStatus::Unreachable);
}

#[test]
fn reconnect_policy_attempts_zero_is_terminal() {
    let mut r = Relay::new(String::from("/ip4/10.0.0.1/tcp/1"));
    r.set_disconnected(&ReconnectPolicy::Attempts(0));
    assert_eq!(r.status, RelayStatus::Unreachable);
}

#[test]
fn reconnect_policy_attempts_resets_from_connected() {
    let mut r = Relay::new(String::from("/ip4/10.0.0.1/tcp/1"));
    r.set_connecting();
    r.update_connecting(RelayConnectionUpdate::SentObservedAddr);
    r.update_connecting(RelayConnectionUpdate::LearntObservedAddr(String::new()));
    assert_eq!(r.status, RelayStatus::Connected);
    r.set_disconnected(&ReconnectPolicy::Attempts(3));
    assert_eq!(r.status, RelayStatus::Disconnected(1));
}

#[test]
fn fit_into_arr_pads_short_input_on_the_left() {
    let v: Vec<u8> = vec![7, 9];
    let a: [u8; 4] = v.fit_into_arr();
    assert_eq!(a, [0, 0, 7, 9]);
}

#[test]
fn fit_into_arr_truncates_long_input() {
    let v: Vec<u8> = vec![1, 2, 3, 4, 5];
    let a: [u8; 3] = v.fit_into_arr();
    assert_eq!(a, [1, 2, 3]);
}

#[test]
fn empty_seed_becomes_all_zero_key_material() {
    let id = host::Identity::Seed(vec![]).into_base();
    match id {
        Identity::Seed(seed) => assert_eq!(seed, [0u8; 32]),
        _ => panic!("seed identity expected"),
    }
    let kp = keys::keypair_from_identity(&id);
    assert!(kp.is_ok());
}

#[test]
fn keypair_from_any_seed_succeeds() {
    let kp = keys::generate([0xAB; 32]);
    assert!(kp.is_ok());
    let random = keys::keypair_from_identity(&Identity::Random);
    assert!(random.is_ok());
}

#[test]
fn peer_id_round_trips_through_overlay_form() {
    let pid = fresh_peer_id();
    let base = types::NodeId::Peer { peer_id: pid.clone() };
    let overlay = NodeId::try_from_base(&base).expect("valid peer id");
    assert_eq!(overlay, NodeId::Peer(pid.clone()));
    let back = overlay.to_base();
    assert_eq!(back, types::NodeId::Peer { peer_id: pid });
}

#[test]
fn address_round_trips_when_canonical() {
    let addr = String::from("/ip4/127.0.0.1/tcp/4001");
    let base = types::NodeId::Address { address: addr.clone() };
    let overlay = NodeId::try_from_base(&base).expect("valid address");
    let back = overlay.to_base();
    assert_eq!(back, types::NodeId::Address { address: addr });
}

#[test]
fn addresses_are_canonicalized_on_parse() {
    let base = types::NodeId::Address {
        address: String::from("/ip6/0:0:0:0:0:0:0:1/tcp/4001"),
    };
    let overlay = NodeId::try_from_base(&base).expect("valid address");
    assert_eq!(overlay, NodeId::Addr(String::from("/ip6/::1/tcp/4001")));
    // Canonicalizing again changes nothing.
    let again = NodeId::try_from_base(&overlay.to_base()).unwrap();
    assert_eq!(again, overlay);
}

#[test]
fn invalid_identifiers_are_rejected_locally() {
    let bad_peer = types::NodeId::Peer { peer_id: String::from("not base58 0OIl") };
    assert!(NodeId::try_from_base(&bad_peer).is_err());
    let bad_addr = types::NodeId::Address { address: String::from("no-leading-slash") };
    assert!(NodeId::try_from_base(&bad_addr).is_err());
}

#[test]
fn peer_text_comes_from_address_tail() {
    let pid = fresh_peer_id();
    let addr = format!("/ip4/127.0.0.1/tcp/4001/p2p/{pid}");
    let base = types::NodeId::Address { address: addr };
    let overlay = NodeId::try_from_base(&base).expect("valid address");
    assert_eq!(overlay.peer_text(), Some(pid));

    let plain = NodeId::try_from_base(&types::NodeId::Address {
        address: String::from("/ip4/127.0.0.1/tcp/4001"),
    })
    .unwrap();
    assert_eq!(plain.peer_text(), None);
}

#[test]
fn node_id_from_public_key_matches_keypair_peer_id() {
    let kp = libp2p_identity::Keypair::generate_ed25519();
    let expected = kp.public().to_peer_id().to_string();
    let bytes = kp.public().try_into_ed25519().unwrap().to_bytes();
    let overlay = NodeId::try_from_base_pk(&p2p_core::config::PublicKey::Ed25519(bytes))
        .expect("valid key");
    assert_eq!(overlay, NodeId::Peer(expected));
}

#[test]
fn table_stores_and_consumes_channels() {
    let mut t = ResponseChannelTable::new();
    assert_eq!(t.size(), 0);
    let key = ResponseKey {
        node: NodeId::Peer(String::from("QmPeer")),
        protocol: String::from("/echo/1"),
        id: String::from("42"),
    };
    t.insert(key.clone(), 7);
    assert_eq!(t.size(), 1);
    assert_eq!(t.remove(&key), Some(7));
    assert_eq!(t.size(), 0);
    assert_eq!(t.remove(&key), None);
}

#[test]
fn table_insert_replaces_existing_key() {
    let mut t = ResponseChannelTable::new();
    let key = ResponseKey {
        node: NodeId::Peer(String::from("QmPeer")),
        protocol: String::from("/echo/1"),
        id: String::from("42"),
    };
    t.insert(key.clone(), 7);
    t.insert(key.clone(), 8);
    assert_eq!(t.size(), 1);
    assert_eq!(t.remove(&key), Some(8));
}

#[test]
fn table_clear_drops_everything() {
    let mut t = ResponseChannelTable::new();
    let k1 = ResponseKey {
        node: NodeId::Peer(String::from("QmA")),
        protocol: String::from("/echo/1"),
        id: String::from("1"),
    };
    let k2 = ResponseKey {
        node: NodeId::Peer(String::from("QmB")),
        protocol: String::from("/echo/1"),
        id: String::from("2"),
    };
    t.insert(k1.clone(), 1);
    t.insert(k2, 2);
    t.clear();
    assert_eq!(t.size(), 0);
    assert_eq!(t.remove(&k1), None);
}

#[test]
fn multi_behaviour_registers_each_protocol_once() {
    let entries = vec![(String::from("/echo/1"), 1u32), (String::from("/chat/1"), 2u32)];
    let mut mb = MultiBehaviour::new(entries).expect("unique names");
    assert!(mb.get_mut(&String::from("/echo/1")).is_some());
    assert!(mb.get_mut(&String::from("/none/1")).is_none());
    let b = mb.get_mut(&String::from("/chat/1")).unwrap();
    *b = 9;
    assert_eq!(*mb.get_mut(&String::from("/chat/1")).unwrap(), 9);
}

#[test]
fn multi_behaviour_rejects_duplicate_protocol() {
    let entries = vec![(String::from("/echo/1"), 1u32), (String::from("/echo/1"), 2u32)];
    assert!(MultiBehaviour::new(entries).is_err());
}

#[test]
fn poll_order_is_a_permutation() {
    let entries = vec![
        (String::from("/a/1"), 0u8),
        (String::from("/b/1"), 0u8),
        (String::from("/c/1"), 0u8),
        (String::from("/d/1"), 0u8),
    ];
    let mb = MultiBehaviour::new(entries).unwrap();
    let mut order = mb.poll_order();
    order.sort();
    assert_eq!(order, vec![0, 1, 2, 3]);
}

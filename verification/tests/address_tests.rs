use patchlan::address::{NetworkAddress, Segment};
use patchlan::identity::PeerIdentity;

fn relay_address() -> NetworkAddress {
    NetworkAddress::empty()
        .with(Segment::Ip4 { a: 198, b: 51, c: 100, d: 7 })
        .with(Segment::Tcp { port: 4001 })
}

#[test]
fn compose_appends_in_order() {
    let relay = relay_address();
    let target = PeerIdentity::from_seed(9);
    let composite = relay.circuit_to(&target);
    assert_eq!(composite.segment_count(), 4);
    assert!(matches!(composite.segment_at(0), Segment::Ip4 { a: 198, b: 51, c: 100, d: 7 }));
    assert!(matches!(composite.segment_at(1), Segment::Tcp { port: 4001 }));
    assert!(matches!(composite.segment_at(2), Segment::P2pCircuit));
    match composite.segment_at(3) {
        Segment::P2p { peer } => assert!(peer.same(&PeerIdentity::from_seed(9))),
        other => panic!("expected a trailing peer identity, got {:?}", std::mem::discriminant(other)),
    }
}

#[test]
fn composite_address_round_trips() {
    let relay = relay_address();
    let target = PeerIdentity::from_seed(3);
    let composite = relay.circuit_to(&target);
    let (base, peer) = composite.split_circuit_target().expect("a circuit address splits");
    assert_eq!(base.segment_count(), relay.segment_count());
    assert!(matches!(base.segment_at(0), Segment::Ip4 { a: 198, b: 51, c: 100, d: 7 }));
    assert!(matches!(base.segment_at(1), Segment::Tcp { port: 4001 }));
    assert!(peer.same(&target));
}

#[test]
fn round_trip_with_quic_relay_and_long_identity() {
    let relay = NetworkAddress::empty()
        .with(Segment::Ip4 { a: 10, b: 0, c: 0, d: 1 })
        .with(Segment::Udp { port: 0 })
        .with(Segment::QuicV1);
    let target = PeerIdentity::new(vec![7u8; 34]).expect("non-empty identity");
    let composite = relay.circuit_to(&target);
    let (base, peer) = composite.split_circuit_target().expect("a circuit address splits");
    assert_eq!(base.segment_count(), 3);
    assert!(matches!(base.segment_at(2), Segment::QuicV1));
    assert_eq!(peer.as_bytes(), &vec![7u8; 34]);
}

#[test]
fn plain_address_does_not_split() {
    let relay = relay_address();
    assert!(relay.split_circuit_target().is_none());
    assert!(NetworkAddress::empty().split_circuit_target().is_none());
}

#[test]
fn circuit_marker_alone_does_not_split() {
    let half = relay_address().with(Segment::P2pCircuit);
    assert!(half.split_circuit_target().is_none());
}

#[test]
fn trailing_peer_without_marker_does_not_split() {
    let target = PeerIdentity::from_seed(5);
    let addr = relay_address().with(Segment::P2p { peer: target });
    assert!(addr.split_circuit_target().is_none());
}

#[test]
fn empty_identity_is_rejected() {
    assert!(PeerIdentity::new(Vec::new()).is_none());
    assert!(PeerIdentity::new(vec![0u8]).is_some());
}

#[test]
fn seeded_identities_are_deterministic_and_distinct() {
    let a1 = PeerIdentity::from_seed(1);
    let a2 = PeerIdentity::from_seed(1);
    let b = PeerIdentity::from_seed(2);
    assert!(a1.same(&a2));
    assert!(!a1.same(&b));
    let bytes = patchlan::identity::seed_key_bytes(1);
    assert_eq!(bytes.len(), 32);
    assert_eq!(bytes[0], 1);
    assert!(bytes[1..].iter().all(|&x| x == 0));
}

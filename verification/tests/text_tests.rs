use patchlan::address::{NetworkAddress, Segment};
use patchlan::identity::PeerIdentity;
use patchlan::text::{parse_text, render_text};

fn relay_address() -> NetworkAddress {
    NetworkAddress::empty()
        .with(Segment::Ip4 { a: 198, b: 51, c: 100, d: 7 })
        .with(Segment::Tcp { port: 4001 })
}

#[test]
fn rendering_is_canonical() {
    // 198=c6, 51=33, 100=64, 7=07; 4001=0fa1
    assert_eq!(render_text(&relay_address()), "/ip4/c6336407/tcp/0fa1");
    let quic = NetworkAddress::empty()
        .with(Segment::Ip4 { a: 0, b: 0, c: 0, d: 0 })
        .with(Segment::Udp { port: 0 })
        .with(Segment::QuicV1);
    assert_eq!(render_text(&quic), "/ip4/00000000/udp/0000/quic-v1");
}

#[test]
fn circuit_address_text_round_trips() {
    let target = PeerIdentity::new(vec![0x12, 0xab, 0xff]).expect("non-empty identity");
    let composite = relay_address().circuit_to(&target);
    let text = render_text(&composite);
    assert_eq!(text, "/ip4/c6336407/tcp/0fa1/p2p-circuit/p2p/0312abff");
    let parsed = parse_text(&text).expect("canonical text parses");
    assert_eq!(parsed.segment_count(), composite.segment_count());
    let (base, peer) = parsed.split_circuit_target().expect("still a circuit address");
    assert_eq!(base.segment_count(), 2);
    assert!(matches!(base.segment_at(0), Segment::Ip4 { a: 198, b: 51, c: 100, d: 7 }));
    assert!(matches!(base.segment_at(1), Segment::Tcp { port: 4001 }));
    assert!(peer.same(&target));
}

#[test]
fn seeded_identity_text_round_trips() {
    let target = PeerIdentity::from_seed(1);
    let addr = NetworkAddress::empty()
        .with(Segment::Ip4 { a: 203, b: 0, c: 113, d: 9 })
        .with(Segment::Udp { port: 61234 })
        .with(Segment::QuicV1)
        .circuit_to(&target);
    let text = render_text(&addr);
    let parsed = parse_text(&text).expect("canonical text parses");
    let (_, peer) = parsed.split_circuit_target().expect("a circuit address");
    assert!(peer.same(&target));
}

#[test]
fn empty_address_round_trips() {
    let empty = NetworkAddress::empty();
    let text = render_text(&empty);
    assert_eq!(text, "");
    let parsed = parse_text(&text).expect("the empty text parses");
    assert_eq!(parsed.segment_count(), 0);
}

#[test]
fn non_canonical_text_is_rejected() {
    assert!(parse_text("nonsense").is_none());
    assert!(parse_text("/ip4/").is_none());
    // uppercase digits are not canonical
    assert!(parse_text("/ip4/C6336407/tcp/0fa1").is_none());
    // truncated value
    assert!(parse_text("/ip4/c63364").is_none());
    // a zero-length peer identity is not renderable, so not parseable
    assert!(parse_text("/p2p/00").is_none());
    // trailing garbage spoils the whole text
    assert!(parse_text("/quic-v1x").is_none());
}

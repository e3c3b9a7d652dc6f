use patchlan::address::{NetworkAddress, Segment};
use patchlan::relay::{RelaySession, RelayStatus};

fn relay_address() -> NetworkAddress {
    NetworkAddress::empty()
        .with(Segment::Ip4 { a: 192, b: 0, c: 2, d: 1 })
        .with(Segment::Udp { port: 4001 })
        .with(Segment::QuicV1)
}

fn observed_address() -> NetworkAddress {
    NetworkAddress::empty()
        .with(Segment::Ip4 { a: 203, b: 0, c: 113, d: 9 })
        .with(Segment::Udp { port: 61234 })
        .with(Segment::QuicV1)
}

#[test]
fn not_ready_before_connection() {
    let s = RelaySession::idle(relay_address());
    assert!(matches!(s.status(), RelayStatus::Disconnected));
    assert!(!s.is_ready());
    let s = RelaySession::connect(relay_address());
    assert!(matches!(s.status(), RelayStatus::Connecting));
    assert!(!s.is_ready());
}

#[test]
fn ready_needs_both_signals_identity_first() {
    let mut s = RelaySession::connect(relay_address());
    s.on_connected();
    assert!(!s.is_ready());
    s.on_identity_acknowledged();
    assert!(!s.is_ready());
    s.on_observed_address(observed_address());
    assert!(s.is_ready());
}

#[test]
fn ready_needs_both_signals_observed_first() {
    let mut s = RelaySession::connect(relay_address());
    s.on_connected();
    s.on_observed_address(observed_address());
    assert!(!s.is_ready());
    s.on_identity_acknowledged();
    assert!(s.is_ready());
}

#[test]
fn observed_address_is_kept() {
    let mut s = RelaySession::connect(relay_address());
    s.on_connected();
    assert!(s.observed_addr().is_none());
    s.on_observed_address(observed_address());
    let got = s.observed_addr().as_ref().expect("observed address kept");
    assert_eq!(got.segment_count(), 3);
}

#[test]
fn disconnect_resets_both_signals() {
    let mut s = RelaySession::connect(relay_address());
    s.on_connected();
    s.on_identity_acknowledged();
    s.on_observed_address(observed_address());
    assert!(s.is_ready());
    s.on_disconnected();
    assert!(matches!(s.status(), RelayStatus::Disconnected));
    assert!(!s.is_ready());
    // a re-dialed session must earn both signals again
    s.redial();
    assert!(matches!(s.status(), RelayStatus::Connecting));
    s.on_connected();
    assert!(!s.is_ready());
    s.on_identity_acknowledged();
    s.on_observed_address(observed_address());
    assert!(s.is_ready());
}

use patchlan::address::{NetworkAddress, Segment};
use patchlan::endpoint::{BindStatus, EndpointSet};
use patchlan::errors::BindError;

fn tcp_any() -> NetworkAddress {
    NetworkAddress::empty()
        .with(Segment::Ip4 { a: 0, b: 0, c: 0, d: 0 })
        .with(Segment::Tcp { port: 0 })
}

fn quic_any() -> NetworkAddress {
    NetworkAddress::empty()
        .with(Segment::Ip4 { a: 0, b: 0, c: 0, d: 0 })
        .with(Segment::Udp { port: 0 })
        .with(Segment::QuicV1)
}

fn tcp_resolved() -> NetworkAddress {
    NetworkAddress::empty()
        .with(Segment::Ip4 { a: 192, b: 0, c: 2, d: 10 })
        .with(Segment::Tcp { port: 40001 })
}

#[test]
fn bind_attempts_start_pending() {
    let mut eps = EndpointSet::new();
    assert_eq!(eps.len(), 0);
    assert_eq!(eps.pending_count(), 0);
    let t = eps.request_bind(tcp_any());
    let q = eps.request_bind(quic_any());
    assert_eq!((t, q), (0, 1));
    assert_eq!(eps.len(), 2);
    assert_eq!(eps.pending_count(), 2);
    assert_eq!(eps.bound_count(), 0);
    assert!(matches!(eps.status_at(t), BindStatus::Pending));
}

#[test]
fn one_failure_does_not_block_the_other() {
    let mut eps = EndpointSet::new();
    let t = eps.request_bind(tcp_any());
    let q = eps.request_bind(quic_any());
    eps.mark_failed(q, BindError::Unsupported);
    assert_eq!(eps.pending_count(), 1);
    assert!(matches!(eps.status_at(q), BindStatus::Failed { reason: BindError::Unsupported }));
    eps.mark_bound(t, tcp_resolved());
    assert_eq!(eps.pending_count(), 0);
    assert_eq!(eps.bound_count(), 1);
    assert!(matches!(eps.status_at(t), BindStatus::Bound));
}

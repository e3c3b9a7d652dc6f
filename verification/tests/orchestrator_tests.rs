use patchlan::address::{NetworkAddress, Segment};
use patchlan::circuit::CircuitStatus;
use patchlan::errors::{BindError, FatalReason, NegotiationSetback};
use patchlan::identity::PeerIdentity;
use patchlan::orchestrator::{Action, Event, Orchestrator, Phase};
use patchlan::reservation::ReservationStatus;

fn relay_addr() -> NetworkAddress {
    NetworkAddress::empty()
        .with(Segment::Ip4 { a: 198, b: 51, c: 100, d: 7 })
        .with(Segment::Tcp { port: 4001 })
}

fn tcp_any() -> NetworkAddress {
    NetworkAddress::empty()
        .with(Segment::Ip4 { a: 0, b: 0, c: 0, d: 0 })
        .with(Segment::Tcp { port: 0 })
}

fn quic_any() -> NetworkAddress {
    NetworkAddress::empty()
        .with(Segment::Ip4 { a: 0, b: 0, c: 0, d: 0 })
        .with(Segment::Udp { port: 0 })
        .with(Segment::QuicV1)
}

fn tcp_bound() -> NetworkAddress {
    NetworkAddress::empty()
        .with(Segment::Ip4 { a: 192, b: 0, c: 2, d: 10 })
        .with(Segment::Tcp { port: 40001 })
}

fn quic_bound() -> NetworkAddress {
    NetworkAddress::empty()
        .with(Segment::Ip4 { a: 192, b: 0, c: 2, d: 10 })
        .with(Segment::Udp { port: 40002 })
        .with(Segment::QuicV1)
}

fn observed() -> NetworkAddress {
    NetworkAddress::empty()
        .with(Segment::Ip4 { a: 203, b: 0, c: 113, d: 9 })
        .with(Segment::Tcp { port: 61234 })
}

/// Binds both transports and completes the relay handshake.
fn ready_orchestrator() -> Orchestrator {
    let mut orc = Orchestrator::new(relay_addr());
    let t = orc.request_bind(tcp_any());
    let q = orc.request_bind(quic_any());
    assert!(matches!(orc.step(Event::EndpointBound { index: t, resolved: tcp_bound() }), Action::Continue));
    assert!(matches!(
        orc.step(Event::EndpointBound { index: q, resolved: quic_bound() }),
        Action::DialRelay { .. }
    ));
    assert!(matches!(orc.phase(), Phase::AwaitingRelayReady));
    assert!(matches!(orc.step(Event::RelayConnected), Action::Continue));
    assert!(matches!(orc.step(Event::IdentityAcknowledged), Action::Continue));
    assert!(matches!(
        orc.step(Event::ObservedAddressLearned { address: observed() }),
        Action::Continue
    ));
    assert!(matches!(orc.phase(), Phase::Ready));
    orc
}

#[test]
fn binding_proceeds_once_all_outcomes_are_in() {
    let mut orc = Orchestrator::new(relay_addr());
    let t = orc.request_bind(tcp_any());
    let q = orc.request_bind(quic_any());
    assert_eq!(orc.pending_bind_count(), 2);
    assert!(matches!(orc.step(Event::EndpointBound { index: t, resolved: tcp_bound() }), Action::Continue));
    assert!(matches!(orc.phase(), Phase::Binding));
    // one transport may fail without blocking the other
    let act = orc.step(Event::EndpointFailed { index: q, reason: BindError::Unsupported });
    assert!(matches!(act, Action::DialRelay { .. }));
    assert!(matches!(orc.phase(), Phase::AwaitingRelayReady));
    assert_eq!(orc.bound_count(), 1);
}

#[test]
fn binding_grace_timer_proceeds_with_warning() {
    let mut orc = Orchestrator::new(relay_addr());
    orc.request_bind(tcp_any());
    orc.request_bind(quic_any());
    // no outcome arrived yet; the timer must not leave it blocked
    let act = orc.step(Event::BindGraceElapsed);
    assert!(matches!(act, Action::DialRelay { .. }));
    assert!(matches!(orc.phase(), Phase::AwaitingRelayReady));
}

#[test]
fn all_binds_failing_is_fatal() {
    let mut orc = Orchestrator::new(relay_addr());
    let t = orc.request_bind(tcp_any());
    let q = orc.request_bind(quic_any());
    assert!(matches!(
        orc.step(Event::EndpointFailed { index: t, reason: BindError::PermissionDenied }),
        Action::Continue
    ));
    let act = orc.step(Event::EndpointFailed { index: q, reason: BindError::AddressUnavailable });
    assert!(matches!(act, Action::ExitFatal { reason: FatalReason::NoTransportBound }));
    assert!(matches!(orc.phase(), Phase::Failed));
}

#[test]
fn readiness_identity_first_then_observed() {
    let mut orc = Orchestrator::new(relay_addr());
    let t = orc.request_bind(tcp_any());
    orc.step(Event::EndpointBound { index: t, resolved: tcp_bound() });
    orc.step(Event::RelayConnected);
    orc.step(Event::IdentityAcknowledged);
    assert!(matches!(orc.phase(), Phase::AwaitingRelayReady));
    assert!(!orc.relay_is_ready());
    orc.step(Event::ObservedAddressLearned { address: observed() });
    assert!(orc.relay_is_ready());
    assert!(matches!(orc.phase(), Phase::Ready));
}

#[test]
fn readiness_observed_first_then_identity() {
    let mut orc = Orchestrator::new(relay_addr());
    let t = orc.request_bind(tcp_any());
    orc.step(Event::EndpointBound { index: t, resolved: tcp_bound() });
    orc.step(Event::RelayConnected);
    orc.step(Event::ObservedAddressLearned { address: observed() });
    assert!(matches!(orc.phase(), Phase::AwaitingRelayReady));
    assert!(!orc.relay_is_ready());
    orc.step(Event::IdentityAcknowledged);
    assert!(orc.relay_is_ready());
    assert!(matches!(orc.phase(), Phase::Ready));
}

#[test]
fn relay_unreachable_exits_within_grace() {
    let mut orc = Orchestrator::new(relay_addr());
    let t = orc.request_bind(tcp_any());
    orc.step(Event::EndpointBound { index: t, resolved: tcp_bound() });
    assert!(matches!(orc.phase(), Phase::AwaitingRelayReady));
    let act = orc.step(Event::RelayReadyGraceElapsed);
    assert!(matches!(act, Action::ExitFatal { reason: FatalReason::RelayUnreachable }));
    assert!(matches!(orc.phase(), Phase::Failed));
}

#[test]
fn listen_flow_reserves_and_serves() {
    let mut orc = ready_orchestrator();
    let act = orc.start_listen();
    assert!(matches!(act, Action::RequestReservation));
    assert!(matches!(orc.phase(), Phase::ReservationRequested));
    assert!(matches!(orc.reservation_status(), ReservationStatus::Requested));
    assert!(matches!(orc.step(Event::ReservationAccepted), Action::Continue));
    assert!(matches!(orc.phase(), Phase::Serving));
    assert!(matches!(orc.reservation_status(), ReservationStatus::Accepted));
    // periodic renewal is benign
    assert!(matches!(orc.step(Event::ReservationAccepted), Action::Continue));
}

#[test]
fn reservation_rejection_is_surfaced_not_fatal() {
    let mut orc = ready_orchestrator();
    orc.start_listen();
    let act = orc.step(Event::ReservationRejected);
    assert!(matches!(
        act,
        Action::ReportSetback { issue: NegotiationSetback::ReservationRejected }
    ));
    assert!(matches!(orc.reservation_status(), ReservationStatus::Rejected));
    assert!(!matches!(orc.phase(), Phase::Failed));
}

#[test]
fn reservation_torn_down_on_disconnect_and_not_auto_restored() {
    let mut orc = ready_orchestrator();
    orc.start_listen();
    orc.step(Event::ReservationAccepted);
    assert!(matches!(orc.reservation_status(), ReservationStatus::Accepted));
    // the relay session drops: the reservation does not outlive it
    let act = orc.step(Event::RelayDisconnected);
    assert!(matches!(act, Action::DialRelay { .. }));
    assert!(matches!(orc.reservation_status(), ReservationStatus::NotRequested));
    assert!(matches!(orc.phase(), Phase::AwaitingRelayReady));
    // reconnection alone restores nothing
    orc.step(Event::RelayConnected);
    assert!(matches!(orc.reservation_status(), ReservationStatus::NotRequested));
    orc.step(Event::IdentityAcknowledged);
    assert!(matches!(orc.reservation_status(), ReservationStatus::NotRequested));
    // readiness issues a fresh request; Accepted needs the relay's answer
    let act = orc.step(Event::ObservedAddressLearned { address: observed() });
    assert!(matches!(act, Action::RequestReservation));
    assert!(matches!(orc.reservation_status(), ReservationStatus::Requested));
    assert!(!matches!(orc.reservation_status(), ReservationStatus::Accepted));
}

#[test]
fn dial_flow_composes_the_circuit_address() {
    let mut orc = ready_orchestrator();
    let target = PeerIdentity::from_seed(1);
    let act = orc.start_dial(target.clone());
    assert!(matches!(orc.phase(), Phase::DialingTarget));
    match act {
        Action::DialCircuit { address } => {
            let (base, peer) = address.split_circuit_target().expect("a circuit address");
            assert_eq!(base.segment_count(), relay_addr().segment_count());
            assert!(peer.same(&target));
        },
        _ => panic!("expected a circuit dial"),
    }
    assert!(matches!(orc.circuit_status(&target), Some(CircuitStatus::Dialing)));
}

#[test]
fn upgrade_failure_keeps_the_relayed_circuit() {
    let mut orc = ready_orchestrator();
    let target = PeerIdentity::from_seed(1);
    orc.start_dial(target.clone());
    orc.step(Event::CircuitEstablished { remote: target.clone() });
    assert!(matches!(orc.circuit_status(&target), Some(CircuitStatus::Established)));
    orc.step(Event::DirectUpgradeStarted { remote: target.clone() });
    assert!(matches!(orc.circuit_status(&target), Some(CircuitStatus::DirectUpgradeInProgress)));
    // force the hole-punch timeout
    let act = orc.step(Event::DirectUpgradeFailed { remote: target.clone() });
    assert!(matches!(act, Action::ReportSetback { issue: NegotiationSetback::HolePunchFailed }));
    // fallback invariant: the circuit is still established, not closed
    assert!(matches!(orc.circuit_status(&target), Some(CircuitStatus::Established)));
    assert!(!matches!(orc.phase(), Phase::Failed));
}

#[test]
fn two_peers_reach_each_other_through_the_relay() {
    let relay = relay_addr();
    let a_id = PeerIdentity::from_seed(1);
    let b_id = PeerIdentity::from_seed(2);

    // peer A listens and reserves successfully
    let mut a = ready_orchestrator();
    assert!(matches!(a.start_listen(), Action::RequestReservation));
    a.step(Event::ReservationAccepted);
    assert!(matches!(a.reservation_status(), ReservationStatus::Accepted));
    assert!(matches!(a.phase(), Phase::Serving));

    // peer B dials A's identity through the relay
    let mut b = ready_orchestrator();
    let act = b.start_dial(a_id.clone());
    match act {
        Action::DialCircuit { address } => {
            let (base, peer) = address.split_circuit_target().expect("a circuit address");
            assert_eq!(base.segment_count(), relay.segment_count());
            assert!(peer.same(&a_id));
        },
        _ => panic!("expected a circuit dial"),
    }

    // the relay forwards: both ends see the circuit establish
    assert!(matches!(a.step(Event::CircuitEstablished { remote: b_id.clone() }), Action::Continue));
    assert!(matches!(a.circuit_status(&b_id), Some(CircuitStatus::Established)));
    assert!(matches!(b.step(Event::CircuitEstablished { remote: a_id.clone() }), Action::Continue));
    assert!(matches!(b.circuit_status(&a_id), Some(CircuitStatus::Established)));

    // direct connectivity is possible: the upgrade promotes both ends
    b.step(Event::DirectUpgradeStarted { remote: a_id.clone() });
    assert!(matches!(b.step(Event::DirectUpgradeSucceeded { remote: a_id.clone() }), Action::Continue));
    assert!(matches!(b.circuit_status(&a_id), Some(CircuitStatus::DirectEstablished)));
    a.step(Event::DirectUpgradeStarted { remote: b_id.clone() });
    a.step(Event::DirectUpgradeSucceeded { remote: b_id.clone() });
    assert!(matches!(a.circuit_status(&b_id), Some(CircuitStatus::DirectEstablished)));
}

#[test]
fn dial_failure_to_target_is_fatal() {
    let mut orc = ready_orchestrator();
    let target = PeerIdentity::from_seed(1);
    orc.start_dial(target.clone());
    let act = orc.step(Event::CircuitDialFailed { remote: target.clone() });
    assert!(matches!(act, Action::ExitFatal { reason: FatalReason::TargetUnreachable }));
    assert!(matches!(orc.phase(), Phase::Failed));
}

#[test]
fn circuit_for_an_identity_never_dialed_is_a_violation() {
    let mut orc = ready_orchestrator();
    let target = PeerIdentity::from_seed(1);
    let stranger = PeerIdentity::from_seed(7);
    orc.start_dial(target.clone());
    let act = orc.step(Event::CircuitEstablished { remote: stranger.clone() });
    assert!(matches!(act, Action::ReportViolation));
    // the violation terminates nothing: the dial is still in progress
    assert!(matches!(orc.phase(), Phase::DialingTarget));
    assert!(matches!(orc.circuit_status(&target), Some(CircuitStatus::Dialing)));
    assert!(orc.circuit_status(&stranger).is_none());
}

#[test]
fn relay_loss_closes_relayed_but_not_direct_circuits() {
    let mut orc = ready_orchestrator();
    let target = PeerIdentity::from_seed(1);
    orc.start_dial(target.clone());
    orc.step(Event::CircuitEstablished { remote: target.clone() });
    orc.step(Event::DirectUpgradeStarted { remote: target.clone() });
    orc.step(Event::DirectUpgradeSucceeded { remote: target.clone() });
    assert!(matches!(orc.circuit_status(&target), Some(CircuitStatus::DirectEstablished)));
    // losing the relay cancels relayed paths, but the direct one stands
    orc.step(Event::RelayDisconnected);
    assert!(matches!(orc.circuit_status(&target), Some(CircuitStatus::DirectEstablished)));
}

#[test]
fn relay_loss_cancels_inflight_upgrade() {
    let mut orc = ready_orchestrator();
    let target = PeerIdentity::from_seed(1);
    orc.start_dial(target.clone());
    orc.step(Event::CircuitEstablished { remote: target.clone() });
    orc.step(Event::DirectUpgradeStarted { remote: target.clone() });
    orc.step(Event::RelayDisconnected);
    // the circuit (and its hole punch) is gone with the session
    assert!(orc.circuit_status(&target).is_none());
}

#[test]
fn keepalives_are_ignored_silently() {
    let mut orc = ready_orchestrator();
    assert!(matches!(orc.step(Event::KeepaliveCompleted), Action::Continue));
    assert!(matches!(orc.phase(), Phase::Ready));
}

#[test]
fn shutdown_is_graceful_and_terminal() {
    let mut orc = ready_orchestrator();
    orc.start_listen();
    orc.step(Event::ReservationAccepted);
    let act = orc.step(Event::ShutdownRequested);
    assert!(matches!(act, Action::ExitSuccess));
    assert!(matches!(orc.phase(), Phase::Done));
    // the drained stream changes nothing afterwards
    assert!(matches!(orc.step(Event::RelayDisconnected), Action::Continue));
    assert!(matches!(orc.phase(), Phase::Done));
}

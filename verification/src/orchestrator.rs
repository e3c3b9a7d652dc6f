//! The session orchestrator.
//!
//! The top-level state machine: bind local transports, connect the relay,
//! reach readiness (identity acknowledged and observed address known), then
//! branch by operating mode — listen mode requests a reservation and serves
//! inbound circuits; dial mode opens a circuit to the target peer and lets
//! the direct-upgrade coordinator attempt promotion to a direct path.
//!
//! Every transition is driven by a discrete event from the single event
//! stream; the orchestrator itself performs no I/O. Each `step` consumes one
//! event and returns the `Action` the surrounding I/O layer must perform.
//! The whole transition relation is the spec function `spec_step`, and
//! `step` is proved to implement it exactly.

use vstd::prelude::*;
use crate::address::{NetworkAddress, SegmentV, spec_circuit_to};
use crate::circuit::{Circuit, CircuitStatus, CircuitV, spec_status_on_relay_loss};
use crate::endpoint::{BindStatus, EndpointSet, ListenEndpointV, spec_count_bound, spec_count_pending};
use crate::errors::{BindError, FatalReason, NegotiationSetback};
use crate::identity::PeerIdentity;
use crate::relay::{
    RelaySession, RelaySessionV, RelayStatus, spec_dial, spec_idle, spec_on_connected,
    spec_on_identity_acknowledged, spec_on_observed_address, spec_ready,
};
use crate::reservation::{
    ReservationStatus, spec_on_accepted, spec_on_rejected, spec_on_relay_disconnected,
    spec_request,
};

verus! {

/// The orchestrator's phase.
#[derive(Clone, Copy, PartialEq, Eq, Structural, Debug)]
pub enum Phase {
    /// Bind attempts are outstanding on the local transports.
    Binding,
    /// Transports settled; waiting for the relay session to become ready.
    AwaitingRelayReady,
    /// Relay session ready; no operating mode chosen yet.
    Ready,
    /// Listen mode: a reservation request is with the relay.
    ReservationRequested,
    /// Listen mode: reservation accepted, serving inbound circuits.
    Serving,
    /// Dial mode: a circuit toward the target peer is in progress.
    DialingTarget,
    /// Graceful end.
    Done,
    /// Fatal end.
    Failed,
}

/// Spec-level operating mode.
pub ghost enum ModeV {
    Listen,
    Dial { target: Seq<u8> },
}

/// The operating mode, chosen once the session is ready.
pub enum Mode {
    /// Accept inbound circuits indefinitely.
    Listen,
    /// Reach one target peer through the relay.
    Dial { target: PeerIdentity },
}

impl View for Mode {
    type V = ModeV;

    open spec fn view(&self) -> ModeV {
        match *self {
            Mode::Listen => ModeV::Listen,
            Mode::Dial { target } => ModeV::Dial { target: target@ },
        }
    }
}

impl Clone for Mode {
    /// Cloning preserves the mode and its target identity.
    fn clone(&self) -> (r: Self)
        ensures
            r@ == self@,
    {
        match self {
            Mode::Listen => Mode::Listen,
            Mode::Dial { target } => Mode::Dial { target: target.clone() },
        }
    }
}

/// Spec-level form of an event.
pub ghost enum EventV {
    EndpointBound { index: int, resolved: Seq<SegmentV> },
    EndpointFailed { index: int, reason: BindError },
    BindGraceElapsed,
    RelayConnected,
    IdentityAcknowledged,
    ObservedAddressLearned { address: Seq<SegmentV> },
    RelayReadyGraceElapsed,
    RelayDisconnected,
    ReservationAccepted,
    ReservationRejected,
    CircuitEstablished { remote: Seq<u8> },
    CircuitDialFailed { remote: Seq<u8> },
    DirectUpgradeStarted { remote: Seq<u8> },
    DirectUpgradeSucceeded { remote: Seq<u8> },
    DirectUpgradeFailed { remote: Seq<u8> },
    CircuitClosed { remote: Seq<u8> },
    KeepaliveCompleted,
    ShutdownRequested,
}

/// One record of the single, totally ordered event stream.
pub enum Event {
    /// A bind attempt succeeded; the resolved address may differ from the
    /// requested one.
    EndpointBound { index: usize, resolved: NetworkAddress },
    /// A bind attempt failed.
    EndpointFailed { index: usize, reason: BindError },
    /// The transport-bind grace timer fired.
    BindGraceElapsed,
    /// The transport connection to the relay completed.
    RelayConnected,
    /// The relay confirmed receipt of our identity.
    IdentityAcknowledged,
    /// We learned the address the relay observes for us.
    ObservedAddressLearned { address: NetworkAddress },
    /// The relay-ready grace timer fired.
    RelayReadyGraceElapsed,
    /// The relay connection is gone.
    RelayDisconnected,
    /// The relay accepted (or renewed) our reservation.
    ReservationAccepted,
    /// The relay denied our reservation.
    ReservationRejected,
    /// A circuit to the given remote carries traffic.
    CircuitEstablished { remote: PeerIdentity },
    /// The circuit dial to the given remote failed.
    CircuitDialFailed { remote: PeerIdentity },
    /// Hole-punch candidate exchange began on an established circuit.
    DirectUpgradeStarted { remote: PeerIdentity },
    /// The simultaneous direct dial succeeded.
    DirectUpgradeSucceeded { remote: PeerIdentity },
    /// The direct upgrade timed out or failed.
    DirectUpgradeFailed { remote: PeerIdentity },
    /// The circuit to the given remote closed.
    CircuitClosed { remote: PeerIdentity },
    /// A keepalive exchange completed; benign, ignored silently.
    KeepaliveCompleted,
    /// A graceful shutdown was requested locally.
    ShutdownRequested,
}

impl View for Event {
    type V = EventV;

    open spec fn view(&self) -> EventV {
        match *self {
            Event::EndpointBound { index, resolved } => EventV::EndpointBound {
                index: index as int,
                resolved: resolved@,
            },
            Event::EndpointFailed { index, reason } => EventV::EndpointFailed {
                index: index as int,
                reason,
            },
            Event::BindGraceElapsed => EventV::BindGraceElapsed,
            Event::RelayConnected => EventV::RelayConnected,
            Event::IdentityAcknowledged => EventV::IdentityAcknowledged,
            Event::ObservedAddressLearned { address } => EventV::ObservedAddressLearned {
                address: address@,
            },
            Event::RelayReadyGraceElapsed => EventV::RelayReadyGraceElapsed,
            Event::RelayDisconnected => EventV::RelayDisconnected,
            Event::ReservationAccepted => EventV::ReservationAccepted,
            Event::ReservationRejected => EventV::ReservationRejected,
            Event::CircuitEstablished { remote } => EventV::CircuitEstablished { remote: remote@ },
            Event::CircuitDialFailed { remote } => EventV::CircuitDialFailed { remote: remote@ },
            Event::DirectUpgradeStarted { remote } => EventV::DirectUpgradeStarted {
                remote: remote@,
            },
            Event::DirectUpgradeSucceeded { remote } => EventV::DirectUpgradeSucceeded {
                remote: remote@,
            },
            Event::DirectUpgradeFailed { remote } => EventV::DirectUpgradeFailed {
                remote: remote@,
            },
            Event::CircuitClosed { remote } => EventV::CircuitClosed { remote: remote@ },
            Event::KeepaliveCompleted => EventV::KeepaliveCompleted,
            Event::ShutdownRequested => EventV::ShutdownRequested,
        }
    }
}

/// Spec-level form of an action.
pub ghost enum ActionV {
    Continue,
    DialRelay { address: Seq<SegmentV> },
    RequestReservation,
    DialCircuit { address: Seq<SegmentV> },
    ReportSetback { issue: NegotiationSetback },
    ReportViolation,
    ExitSuccess,
    ExitFatal { reason: FatalReason },
}

/// What the surrounding I/O layer must perform after a step.
pub enum Action {
    /// Nothing; wait for the next event.
    Continue,
    /// Dial the relay at this address.
    DialRelay { address: NetworkAddress },
    /// Ask the relay for a reservation (listen on its circuit address).
    RequestReservation,
    /// Dial this circuit address.
    DialCircuit { address: NetworkAddress },
    /// Log a recoverable negotiation setback; the session continues.
    ReportSetback { issue: NegotiationSetback },
    /// Report an event that is structurally impossible in the current
    /// state: a contract breach by the relay or the remote peer.
    ReportViolation,
    /// Exit with code zero.
    ExitSuccess,
    /// Exit nonzero with this diagnostic.
    ExitFatal { reason: FatalReason },
}

impl View for Action {
    type V = ActionV;

    open spec fn view(&self) -> ActionV {
        match *self {
            Action::Continue => ActionV::Continue,
            Action::DialRelay { address } => ActionV::DialRelay { address: address@ },
            Action::RequestReservation => ActionV::RequestReservation,
            Action::DialCircuit { address } => ActionV::DialCircuit { address: address@ },
            Action::ReportSetback { issue } => ActionV::ReportSetback { issue },
            Action::ReportViolation => ActionV::ReportViolation,
            Action::ExitSuccess => ActionV::ExitSuccess,
            Action::ExitFatal { reason } => ActionV::ExitFatal { reason },
        }
    }
}

/// Spec-level form of the orchestrator.
pub ghost struct OrchestratorV {
    pub phase: Phase,
    pub mode: Option<ModeV>,
    pub endpoints: Seq<ListenEndpointV>,
    pub relay: RelaySessionV,
    pub reservation: ReservationStatus,
    pub circuits: Seq<CircuitV>,
}

/// A circuit that has not reached its terminal state.
pub open spec fn spec_is_active(c: CircuitV) -> bool {
    !(c.status is Closed)
}

/// Whether some active circuit reaches this remote.
pub open spec fn spec_has_active(cs: Seq<CircuitV>, remote: Seq<u8>) -> bool {
    exists|i: int| 0 <= i < cs.len() && cs[i].remote == remote && spec_is_active(cs[i])
}

/// Whether the active circuit for this remote is in the given state.
pub open spec fn spec_active_has_status(cs: Seq<CircuitV>, remote: Seq<u8>, st: CircuitStatus) -> bool {
    exists|i: int|
        0 <= i < cs.len() && cs[i].remote == remote && spec_is_active(cs[i]) && cs[i].status == st
}

/// Moves the active circuit for this remote to a new state; every other
/// circuit is untouched.
pub open spec fn spec_set_active_status(cs: Seq<CircuitV>, remote: Seq<u8>, st: CircuitStatus) -> Seq<CircuitV> {
    cs.map_values(
        |c: CircuitV|
            if c.remote == remote && spec_is_active(c) {
                CircuitV { remote: c.remote, status: st }
            } else {
                c
            },
    )
}

/// Closes every circuit that has no independent direct connection.
pub open spec fn spec_close_on_relay_loss(cs: Seq<CircuitV>) -> Seq<CircuitV> {
    cs.map_values(
        |c: CircuitV| CircuitV { remote: c.remote, status: spec_status_on_relay_loss(c.status) },
    )
}

/// Structural invariant of the orchestrator state.
pub open spec fn wf(s: OrchestratorV) -> bool {
    // at most one active circuit per remote peer
    &&& (forall|i: int, j: int|
        0 <= i < j < s.circuits.len() && spec_is_active(s.circuits[i]) && spec_is_active(
            s.circuits[j],
        ) ==> s.circuits[i].remote != s.circuits[j].remote)
    // a reservation never outlives its connected relay session
    &&& (!(s.reservation is NotRequested) ==> s.relay.status is Connected)
    // a live relayed path needs the relay session
    &&& (forall|i: int|
        0 <= i < s.circuits.len() && spec_is_active(s.circuits[i]) && !(s.circuits[i].status
            is DirectEstablished) ==> s.relay.status is Connected)
    // the phases past the handshake presuppose readiness
    &&& ((s.phase is Ready || s.phase is ReservationRequested || s.phase is Serving || s.phase
        is DialingTarget) ==> spec_ready(s.relay))
    // the mode matches the branch taken from Ready
    &&& ((s.phase is ReservationRequested || s.phase is Serving) ==> s.mode == Some(ModeV::Listen))
    &&& (s.phase is DialingTarget ==> s.mode matches Some(ModeV::Dial { .. }))
    // before the transports settled nothing further has happened
    &&& (s.phase is Binding ==> s.relay.status is Disconnected && s.reservation is NotRequested
        && s.circuits.len() == 0)
    // while awaiting readiness the conjunction has not been reached
    &&& (s.phase is AwaitingRelayReady ==> !spec_ready(s.relay) && !(s.relay.status
        is Disconnected))
    // the handshake signals exist only on a connected session
    &&& (!(s.relay.status is Connected) ==> !s.relay.identity_acknowledged
        && !s.relay.observed_address_known)
}

/// The initial state for a relay address: binding, nothing else started.
pub open spec fn spec_init(relay_addr: Seq<SegmentV>) -> OrchestratorV {
    OrchestratorV {
        phase: Phase::Binding,
        mode: None,
        endpoints: Seq::empty(),
        relay: spec_idle(relay_addr),
        reservation: ReservationStatus::NotRequested,
        circuits: Seq::empty(),
    }
}

/// Leaves the binding phase for the relay handshake: the relay dial is
/// issued with the given endpoint table.
pub open spec fn spec_enter_awaiting_relay(s: OrchestratorV, eps: Seq<ListenEndpointV>) -> (OrchestratorV, ActionV) {
    (
        OrchestratorV {
            phase: Phase::AwaitingRelayReady,
            endpoints: eps,
            relay: spec_dial(s.relay.relay_addr),
            ..s
        },
        ActionV::DialRelay { address: s.relay.relay_addr },
    )
}

/// The branch taken the moment the relay session is ready, decided by the
/// operating mode: no mode yet waits in `Ready`; listen mode issues a fresh
/// reservation request; dial mode opens the circuit to the target unless an
/// active one already exists.
pub open spec fn spec_advance_ready(s: OrchestratorV) -> (OrchestratorV, ActionV) {
    match s.mode {
        Option::None => (OrchestratorV { phase: Phase::Ready, ..s }, ActionV::Continue),
        Option::Some(ModeV::Listen) => (
            OrchestratorV {
                phase: Phase::ReservationRequested,
                reservation: spec_request(s.reservation),
                ..s
            },
            ActionV::RequestReservation,
        ),
        Option::Some(ModeV::Dial { target }) => if spec_has_active(s.circuits, target) {
            (OrchestratorV { phase: Phase::DialingTarget, ..s }, ActionV::Continue)
        } else {
            (
                OrchestratorV {
                    phase: Phase::DialingTarget,
                    circuits: s.circuits.push(
                        CircuitV { remote: target, status: CircuitStatus::Dialing },
                    ),
                    ..s
                },
                ActionV::DialCircuit { address: spec_circuit_to(s.relay.relay_addr, target) },
            )
        },
    }
}

/// The relay session is gone: reset the handshake, tear the reservation
/// down, close every circuit without an independent direct connection, and
/// retry the relay dial.
pub open spec fn spec_on_relay_lost(s: OrchestratorV) -> (OrchestratorV, ActionV) {
    (
        OrchestratorV {
            phase: Phase::AwaitingRelayReady,
            relay: spec_dial(s.relay.relay_addr),
            reservation: spec_on_relay_disconnected(s.reservation),
            circuits: spec_close_on_relay_loss(s.circuits),
            ..s
        },
        ActionV::DialRelay { address: s.relay.relay_addr },
    )
}

/// The complete transition relation: one event against one state, giving
/// the next state and the action owed to the I/O layer. Events that are
/// structurally impossible in the current state leave it unchanged and
/// report a protocol violation; benign unexpected events (keepalives, stale
/// timers, late bind outcomes) are absorbed silently.
pub open spec fn spec_step(s: OrchestratorV, ev: EventV) -> (OrchestratorV, ActionV) {
    if s.phase is Done || s.phase is Failed {
        (s, ActionV::Continue)
    } else {
        match ev {
            EventV::EndpointBound { index, resolved } => if 0 <= index < s.endpoints.len()
                && s.endpoints[index].status is Pending {
                let eps = s.endpoints.update(
                    index,
                    ListenEndpointV {
                        requested: s.endpoints[index].requested,
                        resolved: Some(resolved),
                        status: BindStatus::Bound,
                    },
                );
                if s.phase is Binding && spec_count_pending(eps) == 0 {
                    spec_enter_awaiting_relay(s, eps)
                } else {
                    (OrchestratorV { endpoints: eps, ..s }, ActionV::Continue)
                }
            } else {
                (s, ActionV::ReportViolation)
            },
            EventV::EndpointFailed { index, reason } => if 0 <= index < s.endpoints.len()
                && s.endpoints[index].status is Pending {
                let eps = s.endpoints.update(
                    index,
                    ListenEndpointV {
                        requested: s.endpoints[index].requested,
                        resolved: s.endpoints[index].resolved,
                        status: BindStatus::Failed { reason },
                    },
                );
                if s.phase is Binding && spec_count_pending(eps) == 0 {
                    if spec_count_bound(eps) == 0 {
                        (
                            OrchestratorV { phase: Phase::Failed, endpoints: eps, ..s },
                            ActionV::ExitFatal { reason: FatalReason::NoTransportBound },
                        )
                    } else {
                        spec_enter_awaiting_relay(s, eps)
                    }
                } else {
                    (OrchestratorV { endpoints: eps, ..s }, ActionV::Continue)
                }
            } else {
                (s, ActionV::ReportViolation)
            },
            EventV::BindGraceElapsed => if s.phase is Binding {
                if spec_count_bound(s.endpoints) == 0 && spec_count_pending(s.endpoints) == 0 {
                    (
                        OrchestratorV { phase: Phase::Failed, ..s },
                        ActionV::ExitFatal { reason: FatalReason::NoTransportBound },
                    )
                } else {
                    spec_enter_awaiting_relay(s, s.endpoints)
                }
            } else {
                (s, ActionV::Continue)
            },
            EventV::RelayConnected => if s.phase is AwaitingRelayReady && s.relay.status
                is Connecting {
                (OrchestratorV { relay: spec_on_connected(s.relay), ..s }, ActionV::Continue)
            } else {
                (s, ActionV::ReportViolation)
            },
            EventV::IdentityAcknowledged => if s.relay.status is Connected {
                let relay = spec_on_identity_acknowledged(s.relay);
                let s2 = OrchestratorV { relay, ..s };
                if s.phase is AwaitingRelayReady && spec_ready(relay) {
                    spec_advance_ready(s2)
                } else {
                    (s2, ActionV::Continue)
                }
            } else {
                (s, ActionV::ReportViolation)
            },
            EventV::ObservedAddressLearned { address } => if s.relay.status is Connected {
                let relay = spec_on_observed_address(s.relay, address);
                let s2 = OrchestratorV { relay, ..s };
                if s.phase is AwaitingRelayReady && spec_ready(relay) {
                    spec_advance_ready(s2)
                } else {
                    (s2, ActionV::Continue)
                }
            } else {
                (s, ActionV::ReportViolation)
            },
            EventV::RelayReadyGraceElapsed => if s.phase is AwaitingRelayReady {
                (
                    OrchestratorV { phase: Phase::Failed, ..s },
                    ActionV::ExitFatal { reason: FatalReason::RelayUnreachable },
                )
            } else {
                (s, ActionV::Continue)
            },
            EventV::RelayDisconnected => if s.relay.status is Disconnected {
                (s, ActionV::ReportViolation)
            } else {
                spec_on_relay_lost(s)
            },
            EventV::ReservationAccepted => if s.phase is ReservationRequested && s.reservation
                is Requested {
                (
                    OrchestratorV {
                        phase: Phase::Serving,
                        reservation: spec_on_accepted(s.reservation),
                        ..s
                    },
                    ActionV::Continue,
                )
            } else if s.phase is Serving && s.reservation is Accepted {
                // periodic renewal of an accepted reservation
                (s, ActionV::Continue)
            } else {
                (s, ActionV::ReportViolation)
            },
            EventV::ReservationRejected => if s.phase is ReservationRequested && s.reservation
                is Requested {
                (
                    OrchestratorV { reservation: spec_on_rejected(s.reservation), ..s },
                    ActionV::ReportSetback { issue: NegotiationSetback::ReservationRejected },
                )
            } else {
                (s, ActionV::ReportViolation)
            },
            EventV::CircuitEstablished { remote } => if s.phase is Serving {
                if !spec_has_active(s.circuits, remote) {
                    (
                        OrchestratorV {
                            circuits: s.circuits.push(
                                CircuitV { remote, status: CircuitStatus::Established },
                            ),
                            ..s
                        },
                        ActionV::Continue,
                    )
                } else {
                    (s, ActionV::ReportViolation)
                }
            } else if s.phase is DialingTarget && (s.mode matches Some(ModeV::Dial { target })
                && remote == target && spec_active_has_status(
                s.circuits,
                remote,
                CircuitStatus::Dialing,
            )) {
                (
                    OrchestratorV {
                        circuits: spec_set_active_status(
                            s.circuits,
                            remote,
                            CircuitStatus::Established,
                        ),
                        ..s
                    },
                    ActionV::Continue,
                )
            } else {
                (s, ActionV::ReportViolation)
            },
            EventV::CircuitDialFailed { remote } => if s.phase is DialingTarget && (s.mode matches
                Some(ModeV::Dial { target }) && remote == target && spec_active_has_status(
                s.circuits,
                remote,
                CircuitStatus::Dialing,
            )) {
                (
                    OrchestratorV {
                        phase: Phase::Failed,
                        circuits: spec_set_active_status(s.circuits, remote, CircuitStatus::Closed),
                        ..s
                    },
                    ActionV::ExitFatal { reason: FatalReason::TargetUnreachable },
                )
            } else {
                (s, ActionV::ReportViolation)
            },
            EventV::DirectUpgradeStarted { remote } => if (s.phase is Serving || s.phase
                is DialingTarget) && spec_active_has_status(
                s.circuits,
                remote,
                CircuitStatus::Established,
            ) {
                (
                    OrchestratorV {
                        circuits: spec_set_active_status(
                            s.circuits,
                            remote,
                            CircuitStatus::DirectUpgradeInProgress,
                        ),
                        ..s
                    },
                    ActionV::Continue,
                )
            } else {
                (s, ActionV::ReportViolation)
            },
            EventV::DirectUpgradeSucceeded { remote } => if (s.phase is Serving || s.phase
                is DialingTarget) && spec_active_has_status(
                s.circuits,
                remote,
                CircuitStatus::DirectUpgradeInProgress,
            ) {
                (
                    OrchestratorV {
                        circuits: spec_set_active_status(
                            s.circuits,
                            remote,
                            CircuitStatus::DirectEstablished,
                        ),
                        ..s
                    },
                    ActionV::Continue,
                )
            } else {
                (s, ActionV::ReportViolation)
            },
            EventV::DirectUpgradeFailed { remote } => if (s.phase is Serving || s.phase
                is DialingTarget) && spec_active_has_status(
                s.circuits,
                remote,
                CircuitStatus::DirectUpgradeInProgress,
            ) {
                // fallback: the relayed circuit stays established
                (
                    OrchestratorV {
                        circuits: spec_set_active_status(
                            s.circuits,
                            remote,
                            CircuitStatus::Established,
                        ),
                        ..s
                    },
                    ActionV::ReportSetback { issue: NegotiationSetback::HolePunchFailed },
                )
            } else {
                (s, ActionV::ReportViolation)
            },
            EventV::CircuitClosed { remote } => if s.phase is Serving && spec_has_active(
                s.circuits,
                remote,
            ) {
                (
                    OrchestratorV {
                        circuits: spec_set_active_status(s.circuits, remote, CircuitStatus::Closed),
                        ..s
                    },
                    ActionV::Continue,
                )
            } else if s.phase is DialingTarget && (s.mode matches Some(ModeV::Dial { target })
                && remote == target && spec_has_active(s.circuits, remote)) {
                if spec_active_has_status(s.circuits, remote, CircuitStatus::DirectEstablished) {
                    // the direct path carries on; only the relayed circuit ends
                    (
                        OrchestratorV {
                            circuits: spec_set_active_status(
                                s.circuits,
                                remote,
                                CircuitStatus::Closed,
                            ),
                            ..s
                        },
                        ActionV::Continue,
                    )
                } else {
                    (
                        OrchestratorV {
                            phase: Phase::Failed,
                            circuits: spec_set_active_status(
                                s.circuits,
                                remote,
                                CircuitStatus::Closed,
                            ),
                            ..s
                        },
                        ActionV::ExitFatal { reason: FatalReason::TargetUnreachable },
                    )
                }
            } else {
                (s, ActionV::ReportViolation)
            },
            EventV::KeepaliveCompleted => (s, ActionV::Continue),
            EventV::ShutdownRequested => (
                OrchestratorV { phase: Phase::Done, ..s },
                ActionV::ExitSuccess,
            ),
        }
    }
}

/// The abstract contents of a circuit table.
pub open spec fn spec_circuits(cs: &Vec<Circuit>) -> Seq<CircuitV> {
    cs@.map_values(|c: Circuit| c@)
}

/// Whether some active circuit in the table reaches this remote.
fn has_active_circuit(cs: &Vec<Circuit>, remote: &PeerIdentity) -> (r: bool)
    ensures
        r == spec_has_active(spec_circuits(cs), remote@),
{
    let n = cs.len();
    let mut i: usize = 0;
    while i < n
        invariant
            i <= n,
            n == spec_circuits(cs).len(),
            forall|j: int|
                0 <= j < i ==> !(spec_circuits(cs)[j].remote == remote@ && spec_is_active(
                    spec_circuits(cs)[j],
                )),
        decreases n - i,
    {
        let active = match cs[i].status() {
            CircuitStatus::Closed => false,
            _ => true,
        };
        if active && cs[i].remote().same(remote) {
            proof {
                assert(spec_circuits(cs)[i as int] == cs@[i as int]@);
                assert(spec_circuits(cs)[i as int].remote == remote@ && spec_is_active(
                    spec_circuits(cs)[i as int],
                ));
            }
            return true;
        }
        i = i + 1;
    }
    false
}

/// Whether the table has an active circuit to this remote in this state.
fn has_active_with_status(cs: &Vec<Circuit>, remote: &PeerIdentity, st: CircuitStatus) -> (r: bool)
    ensures
        r == spec_active_has_status(spec_circuits(cs), remote@, st),
{
    let n = cs.len();
    let mut i: usize = 0;
    while i < n
        invariant
            i <= n,
            n == spec_circuits(cs).len(),
            forall|j: int|
                0 <= j < i ==> !(spec_circuits(cs)[j].remote == remote@ && spec_is_active(
                    spec_circuits(cs)[j],
                ) && spec_circuits(cs)[j].status == st),
        decreases n - i,
    {
        let active = match cs[i].status() {
            CircuitStatus::Closed => false,
            _ => true,
        };
        if active && cs[i].status() == st && cs[i].remote().same(remote) {
            proof {
                assert(spec_circuits(cs)[i as int] == cs@[i as int]@);
                assert(spec_circuits(cs)[i as int].remote == remote@ && spec_is_active(
                    spec_circuits(cs)[i as int],
                ) && spec_circuits(cs)[i as int].status == st);
            }
            return true;
        }
        i = i + 1;
    }
    false
}

/// Moves every active circuit to this remote into the new state.
fn set_active_status(cs: &mut Vec<Circuit>, remote: &PeerIdentity, st: CircuitStatus)
    ensures
        spec_circuits(final(cs)) == spec_set_active_status(spec_circuits(old(cs)), remote@, st),
{
    let ghost oldv = spec_circuits(cs);
    let n = cs.len();
    let mut i: usize = 0;
    while i < n
        invariant
            i <= n,
            n == cs@.len(),
            spec_circuits(cs).len() == oldv.len(),
            forall|j: int|
                i <= j < n ==> spec_circuits(cs)[j] == oldv[j],
            forall|j: int|
                0 <= j < i ==> spec_circuits(cs)[j] == (if oldv[j].remote == remote@
                    && spec_is_active(oldv[j]) {
                    CircuitV { remote: oldv[j].remote, status: st }
                } else {
                    oldv[j]
                }),
        decreases n - i,
    {
        let active = match cs[i].status() {
            CircuitStatus::Closed => false,
            _ => true,
        };
        let ghost prev_vec = cs@;
        proof {
            assert(spec_circuits(cs)[i as int] == cs@[i as int]@);
        }
        let matched = active && cs[i].remote().same(remote);
        if matched {
            let r = cs[i].remote().clone();
            cs[i] = Circuit::new(r, st);
        }
        proof {
            assert forall|j: int| 0 <= j <= i as int implies spec_circuits(cs)[j] == (
                if oldv[j].remote == remote@ && spec_is_active(oldv[j]) {
                    CircuitV { remote: oldv[j].remote, status: st }
                } else {
                    oldv[j]
                }
            ) by {
                assert(spec_circuits(cs)[j] == cs@[j]@);
                if j < i as int {
                    assert(cs@[j] == prev_vec[j]);
                    assert(prev_vec[j]@ == prev_vec.map_values(|c: Circuit| c@)[j]);
                } else {
                    if matched {
                        assert(cs@[j]@ == (CircuitV { remote: oldv[j].remote, status: st }));
                    } else {
                        assert(cs@[j] == prev_vec[j]);
                        assert(!(oldv[j].remote == remote@ && spec_is_active(oldv[j])));
                    }
                }
            }
        }
        i = i + 1;
    }
    proof {
        assert(spec_circuits(cs) =~= spec_set_active_status(oldv, remote@, st));
    }
}

/// Closes every circuit without an independent direct connection.
fn close_all_on_relay_loss(cs: &mut Vec<Circuit>)
    ensures
        spec_circuits(final(cs)) == spec_close_on_relay_loss(spec_circuits(old(cs))),
{
    let ghost oldv = spec_circuits(cs);
    let n = cs.len();
    let mut i: usize = 0;
    while i < n
        invariant
            i <= n,
            n == cs@.len(),
            spec_circuits(cs).len() == oldv.len(),
            forall|j: int|
                i <= j < n ==> spec_circuits(cs)[j] == oldv[j],
            forall|j: int|
                0 <= j < i ==> spec_circuits(cs)[j] == (CircuitV {
                    remote: oldv[j].remote,
                    status: spec_status_on_relay_loss(oldv[j].status),
                }),
        decreases n - i,
    {
        let ghost prev_vec = cs@;
        proof {
            assert(spec_circuits(cs)[i as int] == cs@[i as int]@);
        }
        let keep = match cs[i].status() {
            CircuitStatus::DirectEstablished => true,
            _ => false,
        };
        if !keep {
            let r = cs[i].remote().clone();
            cs[i] = Circuit::new(r, CircuitStatus::Closed);
        }
        proof {
            assert forall|j: int| 0 <= j <= i as int implies spec_circuits(cs)[j] == (CircuitV {
                remote: oldv[j].remote,
                status: spec_status_on_relay_loss(oldv[j].status),
            }) by {
                assert(spec_circuits(cs)[j] == cs@[j]@);
                if j < i as int {
                    assert(cs@[j] == prev_vec[j]);
                    assert(prev_vec[j]@ == prev_vec.map_values(|c: Circuit| c@)[j]);
                } else {
                    if keep {
                        assert(cs@[j] == prev_vec[j]);
                        assert(oldv[j].status is DirectEstablished);
                    } else {
                        assert(cs@[j]@ == (CircuitV {
                            remote: oldv[j].remote,
                            status: CircuitStatus::Closed,
                        }));
                    }
                }
            }
        }
        i = i + 1;
    }
    proof {
        assert(spec_circuits(cs) =~= spec_close_on_relay_loss(oldv));
    }
}

/// Law: a step from a well-formed state is well formed again — in
/// particular, remote peers keep at most one active circuit, reservations
/// and live relayed paths never outlive the connected relay session, and
/// the ready phases presuppose readiness.
pub proof fn lemma_step_preserves_wf(s: OrchestratorV, ev: EventV)
    requires
        wf(s),
    ensures
        wf(spec_step(s, ev).0),
{
    let s2 = spec_step(s, ev).0;
    match ev {
        EventV::CircuitEstablished { remote } => {
            assert(wf(s2));
        },
        EventV::CircuitDialFailed { remote } => {
            assert(wf(s2));
        },
        EventV::DirectUpgradeStarted { remote } => {
            assert(wf(s2));
        },
        EventV::DirectUpgradeSucceeded { remote } => {
            assert(wf(s2));
        },
        EventV::DirectUpgradeFailed { remote } => {
            assert(wf(s2));
        },
        EventV::CircuitClosed { remote } => {
            assert(wf(s2));
        },
        EventV::RelayDisconnected => {
            assert(wf(s2));
        },
        _ => {
            assert(wf(s2));
        },
    }
}

/// The top-level state machine over the single event stream.
pub struct Orchestrator {
    phase: Phase,
    mode: Option<Mode>,
    endpoints: EndpointSet,
    relay: RelaySession,
    reservation: ReservationStatus,
    circuits: Vec<Circuit>,
}

impl View for Orchestrator {
    type V = OrchestratorV;

    closed spec fn view(&self) -> OrchestratorV {
        OrchestratorV {
            phase: self.phase,
            mode: match self.mode {
                Some(m) => Some(m@),
                None => None,
            },
            endpoints: self.endpoints@,
            relay: self.relay@,
            reservation: self.reservation,
            circuits: self.circuits@.map_values(|c: Circuit| c@),
        }
    }
}

impl Orchestrator {
    /// A fresh orchestrator for one relay address: binding phase, no mode,
    /// no endpoints, the relay not yet dialed.
    pub fn new(relay_addr: NetworkAddress) -> (r: Orchestrator)
        ensures
            r@ == spec_init(relay_addr@),
            wf(r@),
    {
        let r = Orchestrator {
            phase: Phase::Binding,
            mode: None,
            endpoints: EndpointSet::new(),
            relay: RelaySession::idle(relay_addr),
            reservation: ReservationStatus::NotRequested,
            circuits: Vec::new(),
        };
        proof {
            assert(r@.circuits =~= Seq::<CircuitV>::empty());
            assert(r@ == spec_init(relay_addr@));
        }
        r
    }

    /// Current phase.
    pub fn phase(&self) -> (r: Phase)
        ensures
            r == self@.phase,
    {
        self.phase
    }

    /// Current reservation status.
    pub fn reservation_status(&self) -> (r: ReservationStatus)
        ensures
            r == self@.reservation,
    {
        self.reservation
    }

    /// Whether the relay session is ready.
    pub fn relay_is_ready(&self) -> (r: bool)
        ensures
            r == spec_ready(self@.relay),
    {
        self.relay.is_ready()
    }

    /// How many bind attempts are still outstanding.
    pub fn pending_bind_count(&self) -> (r: usize)
        ensures
            r == spec_count_pending(self@.endpoints),
    {
        self.endpoints.pending_count()
    }

    /// How many endpoints reached `Bound`.
    pub fn bound_count(&self) -> (r: usize)
        ensures
            r == spec_count_bound(self@.endpoints),
    {
        self.endpoints.bound_count()
    }

    /// The status of the active circuit to a remote, if one exists.
    pub fn circuit_status(&self, remote: &PeerIdentity) -> (r: Option<CircuitStatus>)
        requires
            wf(self@),
        ensures
            match r {
                Some(st) => spec_active_has_status(self@.circuits, remote@, st),
                None => !spec_has_active(self@.circuits, remote@),
            },
    {
        match self.find_active(remote) {
            Some(i) => Some(self.circuits[i].status()),
            None => None,
        }
    }

    /// Records a bind attempt on a local transport; only meaningful while
    /// binding. Returns the endpoint's index, which later bind outcome
    /// events refer to.
    pub fn request_bind(&mut self, requested: NetworkAddress) -> (idx: usize)
        requires
            wf(old(self)@),
            old(self)@.phase is Binding,
        ensures
            wf(final(self)@),
            final(self)@ == (OrchestratorV {
                endpoints: old(self)@.endpoints.push(
                    ListenEndpointV {
                        requested: requested@,
                        resolved: None,
                        status: BindStatus::Pending,
                    },
                ),
                ..old(self)@
            }),
            idx == old(self)@.endpoints.len(),
    {
        self.endpoints.request_bind(requested)
    }

    /// Chooses listen mode; valid once the session is ready with no mode
    /// chosen. Issues the fresh reservation request.
    pub fn start_listen(&mut self) -> (act: Action)
        requires
            wf(old(self)@),
            old(self)@.phase is Ready,
        ensures
            wf(final(self)@),
            final(self)@ == spec_advance_ready(
                OrchestratorV { mode: Some(ModeV::Listen), ..old(self)@ },
            ).0,
            act@ == spec_advance_ready(
                OrchestratorV { mode: Some(ModeV::Listen), ..old(self)@ },
            ).1,
    {
        self.mode = Some(Mode::Listen);
        self.advance_ready()
    }

    /// Chooses dial mode toward a target peer; valid once the session is
    /// ready with no mode chosen. Issues the circuit dial.
    pub fn start_dial(&mut self, target: PeerIdentity) -> (act: Action)
        requires
            wf(old(self)@),
            old(self)@.phase is Ready,
        ensures
            wf(final(self)@),
            final(self)@ == spec_advance_ready(
                OrchestratorV { mode: Some(ModeV::Dial { target: target@ }), ..old(self)@ },
            ).0,
            act@ == spec_advance_ready(
                OrchestratorV { mode: Some(ModeV::Dial { target: target@ }), ..old(self)@ },
            ).1,
    {
        self.mode = Some(Mode::Dial { target });
        self.advance_ready()
    }

    /// Consumes one event from the stream and returns the action owed to
    /// the I/O layer. Implements the transition relation `spec_step`
    /// exactly.
    pub fn step(&mut self, ev: Event) -> (act: Action)
        requires
            wf(old(self)@),
        ensures
            wf(final(self)@),
            final(self)@ == spec_step(old(self)@, ev@).0,
            act@ == spec_step(old(self)@, ev@).1,
    {
        proof {
            lemma_step_preserves_wf(old(self)@, ev@);
        }
        let terminal = match self.phase {
            Phase::Done => true,
            Phase::Failed => true,
            _ => false,
        };
        if terminal {
            return Action::Continue;
        }
        match ev {
            Event::EndpointBound { index, resolved } => {
                let valid = index < self.endpoints.len() && (match self.endpoints.status_at(index) {
                    BindStatus::Pending => true,
                    _ => false,
                });
                if !valid {
                    return Action::ReportViolation;
                }
                self.endpoints.mark_bound(index, resolved);
                let binding = match self.phase {
                    Phase::Binding => true,
                    _ => false,
                };
                if binding && self.endpoints.pending_count() == 0 {
                    return self.enter_awaiting_relay();
                }
                Action::Continue
            },
            Event::EndpointFailed { index, reason } => {
                let valid = index < self.endpoints.len() && (match self.endpoints.status_at(index) {
                    BindStatus::Pending => true,
                    _ => false,
                });
                if !valid {
                    return Action::ReportViolation;
                }
                self.endpoints.mark_failed(index, reason);
                let binding = match self.phase {
                    Phase::Binding => true,
                    _ => false,
                };
                if binding && self.endpoints.pending_count() == 0 {
                    if self.endpoints.bound_count() == 0 {
                        self.phase = Phase::Failed;
                        return Action::ExitFatal { reason: FatalReason::NoTransportBound };
                    }
                    return self.enter_awaiting_relay();
                }
                Action::Continue
            },
            Event::BindGraceElapsed => {
                let binding = match self.phase {
                    Phase::Binding => true,
                    _ => false,
                };
                if binding {
                    if self.endpoints.bound_count() == 0 && self.endpoints.pending_count() == 0 {
                        self.phase = Phase::Failed;
                        return Action::ExitFatal { reason: FatalReason::NoTransportBound };
                    }
                    return self.enter_awaiting_relay();
                }
                Action::Continue
            },
            Event::RelayConnected => {
                let awaiting = match self.phase {
                    Phase::AwaitingRelayReady => true,
                    _ => false,
                };
                let connecting = match self.relay.status() {
                    RelayStatus::Connecting => true,
                    _ => false,
                };
                if awaiting && connecting {
                    self.relay.on_connected();
                    return Action::Continue;
                }
                Action::ReportViolation
            },
            Event::IdentityAcknowledged => {
                let connected = match self.relay.status() {
                    RelayStatus::Connected => true,
                    _ => false,
                };
                if !connected {
                    return Action::ReportViolation;
                }
                self.relay.on_identity_acknowledged();
                let awaiting = match self.phase {
                    Phase::AwaitingRelayReady => true,
                    _ => false,
                };
                if awaiting && self.relay.is_ready() {
                    return self.advance_ready();
                }
                Action::Continue
            },
            Event::ObservedAddressLearned { address } => {
                let connected = match self.relay.status() {
                    RelayStatus::Connected => true,
                    _ => false,
                };
                if !connected {
                    return Action::ReportViolation;
                }
                self.relay.on_observed_address(address);
                let awaiting = match self.phase {
                    Phase::AwaitingRelayReady => true,
                    _ => false,
                };
                if awaiting && self.relay.is_ready() {
                    return self.advance_ready();
                }
                Action::Continue
            },
            Event::RelayReadyGraceElapsed => {
                let awaiting = match self.phase {
                    Phase::AwaitingRelayReady => true,
                    _ => false,
                };
                if awaiting {
                    self.phase = Phase::Failed;
                    return Action::ExitFatal { reason: FatalReason::RelayUnreachable };
                }
                Action::Continue
            },
            Event::RelayDisconnected => {
                let disconnected = match self.relay.status() {
                    RelayStatus::Disconnected => true,
                    _ => false,
                };
                if disconnected {
                    return Action::ReportViolation;
                }
                self.phase = Phase::AwaitingRelayReady;
                let address = self.relay.relay_addr().clone();
                self.relay.redial();
                self.reservation = ReservationStatus::NotRequested;
                close_all_on_relay_loss(&mut self.circuits);
                Action::DialRelay { address }
            },
            Event::ReservationAccepted => {
                let requested_phase = match self.phase {
                    Phase::ReservationRequested => true,
                    _ => false,
                };
                let serving = match self.phase {
                    Phase::Serving => true,
                    _ => false,
                };
                if requested_phase && (match self.reservation {
                    ReservationStatus::Requested => true,
                    _ => false,
                }) {
                    self.phase = Phase::Serving;
                    self.reservation = ReservationStatus::Accepted;
                    return Action::Continue;
                }
                if serving && (match self.reservation {
                    ReservationStatus::Accepted => true,
                    _ => false,
                }) {
                    return Action::Continue;
                }
                Action::ReportViolation
            },
            Event::ReservationRejected => {
                let requested_phase = match self.phase {
                    Phase::ReservationRequested => true,
                    _ => false,
                };
                if requested_phase && (match self.reservation {
                    ReservationStatus::Requested => true,
                    _ => false,
                }) {
                    self.reservation = ReservationStatus::Rejected;
                    return Action::ReportSetback {
                        issue: NegotiationSetback::ReservationRejected,
                    };
                }
                Action::ReportViolation
            },
            Event::CircuitEstablished { remote } => {
                match self.phase {
                    Phase::Serving => {
                        if !has_active_circuit(&self.circuits, &remote) {
                            let ghost oldcs = self@.circuits;
                            let ghost rv = remote@;
                            self.circuits.push(Circuit::established(remote));
                            proof {
                                assert(self@.circuits =~= oldcs.push(
                                    CircuitV { remote: rv, status: CircuitStatus::Established },
                                ));
                            }
                            Action::Continue
                        } else {
                            Action::ReportViolation
                        }
                    },
                    Phase::DialingTarget => {
                        let target_matches = match &self.mode {
                            Some(Mode::Dial { target }) => target.same(&remote),
                            _ => false,
                        };
                        if target_matches && has_active_with_status(
                            &self.circuits,
                            &remote,
                            CircuitStatus::Dialing,
                        ) {
                            set_active_status(
                                &mut self.circuits,
                                &remote,
                                CircuitStatus::Established,
                            );
                            Action::Continue
                        } else {
                            Action::ReportViolation
                        }
                    },
                    _ => Action::ReportViolation,
                }
            },
            Event::CircuitDialFailed { remote } => {
                let dialing_phase = match self.phase {
                    Phase::DialingTarget => true,
                    _ => false,
                };
                let target_matches = match &self.mode {
                    Some(Mode::Dial { target }) => target.same(&remote),
                    _ => false,
                };
                if dialing_phase && target_matches && has_active_with_status(
                    &self.circuits,
                    &remote,
                    CircuitStatus::Dialing,
                ) {
                    self.phase = Phase::Failed;
                    set_active_status(&mut self.circuits, &remote, CircuitStatus::Closed);
                    return Action::ExitFatal { reason: FatalReason::TargetUnreachable };
                }
                Action::ReportViolation
            },
            Event::DirectUpgradeStarted { remote } => {
                let in_circuit_phase = match self.phase {
                    Phase::Serving => true,
                    Phase::DialingTarget => true,
                    _ => false,
                };
                if in_circuit_phase && has_active_with_status(
                    &self.circuits,
                    &remote,
                    CircuitStatus::Established,
                ) {
                    set_active_status(
                        &mut self.circuits,
                        &remote,
                        CircuitStatus::DirectUpgradeInProgress,
                    );
                    return Action::Continue;
                }
                Action::ReportViolation
            },
            Event::DirectUpgradeSucceeded { remote } => {
                let in_circuit_phase = match self.phase {
                    Phase::Serving => true,
                    Phase::DialingTarget => true,
                    _ => false,
                };
                if in_circuit_phase && has_active_with_status(
                    &self.circuits,
                    &remote,
                    CircuitStatus::DirectUpgradeInProgress,
                ) {
                    set_active_status(
                        &mut self.circuits,
                        &remote,
                        CircuitStatus::DirectEstablished,
                    );
                    return Action::Continue;
                }
                Action::ReportViolation
            },
            Event::DirectUpgradeFailed { remote } => {
                let in_circuit_phase = match self.phase {
                    Phase::Serving => true,
                    Phase::DialingTarget => true,
                    _ => false,
                };
                if in_circuit_phase && has_active_with_status(
                    &self.circuits,
                    &remote,
                    CircuitStatus::DirectUpgradeInProgress,
                ) {
                    // fallback: the relayed circuit returns to Established
                    set_active_status(&mut self.circuits, &remote, CircuitStatus::Established);
                    return Action::ReportSetback { issue: NegotiationSetback::HolePunchFailed };
                }
                Action::ReportViolation
            },
            Event::CircuitClosed { remote } => {
                match self.phase {
                    Phase::Serving => {
                        if has_active_circuit(&self.circuits, &remote) {
                            set_active_status(&mut self.circuits, &remote, CircuitStatus::Closed);
                            Action::Continue
                        } else {
                            Action::ReportViolation
                        }
                    },
                    Phase::DialingTarget => {
                        let target_matches = match &self.mode {
                            Some(Mode::Dial { target }) => target.same(&remote),
                            _ => false,
                        };
                        if target_matches && has_active_circuit(&self.circuits, &remote) {
                            let direct = has_active_with_status(
                                &self.circuits,
                                &remote,
                                CircuitStatus::DirectEstablished,
                            );
                            set_active_status(&mut self.circuits, &remote, CircuitStatus::Closed);
                            if direct {
                                // data continues on the direct path
                                Action::Continue
                            } else {
                                self.phase = Phase::Failed;
                                Action::ExitFatal { reason: FatalReason::TargetUnreachable }
                            }
                        } else {
                            Action::ReportViolation
                        }
                    },
                    _ => Action::ReportViolation,
                }
            },
            Event::KeepaliveCompleted => Action::Continue,
            Event::ShutdownRequested => {
                self.phase = Phase::Done;
                Action::ExitSuccess
            },
        }
    }

    /// The index of the active circuit to this remote, if one exists.
    fn find_active(&self, remote: &PeerIdentity) -> (r: Option<usize>)
        ensures
            match r {
                Some(i) => i < self@.circuits.len() && self@.circuits[i as int].remote == remote@
                    && spec_is_active(self@.circuits[i as int]),
                None => !spec_has_active(self@.circuits, remote@),
            },
    {
        let n = self.circuits.len();
        let mut i: usize = 0;
        while i < n
            invariant
                i <= n,
                n == self@.circuits.len(),
                self@.circuits == self.circuits@.map_values(|c: Circuit| c@),
                forall|j: int|
                    0 <= j < i ==> !(self@.circuits[j].remote == remote@ && spec_is_active(
                        self@.circuits[j],
                    )),
            decreases n - i,
        {
            let active = match self.circuits[i].status() {
                CircuitStatus::Closed => false,
                _ => true,
            };
            if active && self.circuits[i].remote().same(remote) {
                return Some(i);
            }
            i = i + 1;
        }
        None
    }

    /// Leaves the binding phase: dials the relay and awaits its readiness.
    fn enter_awaiting_relay(&mut self) -> (act: Action)
        ensures
            final(self)@ == spec_enter_awaiting_relay(old(self)@, old(self)@.endpoints).0,
            act@ == spec_enter_awaiting_relay(old(self)@, old(self)@.endpoints).1,
    {
        self.phase = Phase::AwaitingRelayReady;
        let address = self.relay.relay_addr().clone();
        self.relay.redial();
        Action::DialRelay { address }
    }

    /// Takes the mode branch out of readiness. Private: callers are `step`
    /// at the readiness conjunction and the two mode commands.
    fn advance_ready(&mut self) -> (act: Action)
        requires
            spec_ready(old(self)@.relay),
            forall|i: int, j: int|
                0 <= i < j < old(self)@.circuits.len() && spec_is_active(old(self)@.circuits[i])
                    && spec_is_active(old(self)@.circuits[j]) ==> old(self)@.circuits[i].remote
                    != old(self)@.circuits[j].remote,
        ensures
            final(self)@ == spec_advance_ready(old(self)@).0,
            act@ == spec_advance_ready(old(self)@).1,
    {
        let mode_snapshot: Option<Mode> = match &self.mode {
            None => None,
            Some(m) => Some(m.clone()),
        };
        match mode_snapshot {
            None => {
                self.phase = Phase::Ready;
                Action::Continue
            },
            Some(Mode::Listen) => {
                self.phase = Phase::ReservationRequested;
                self.reservation = ReservationStatus::Requested;
                Action::RequestReservation
            },
            Some(Mode::Dial { target }) => {
                self.phase = Phase::DialingTarget;
                match self.find_active(&target) {
                    Some(_) => Action::Continue,
                    None => {
                        let ghost oldcs = self@.circuits;
                        let address = self.relay.relay_addr().circuit_to(&target);
                        let ghost tv = target@;
                        self.circuits.push(Circuit::dialing(target));
                        proof {
                            assert(self@.circuits =~= oldcs.push(
                                CircuitV { remote: tv, status: CircuitStatus::Dialing },
                            ));
                        }
                        Action::DialCircuit { address }
                    },
                }
            },
        }
    }
}

/// Law: from the binding phase, the orchestrator proceeds to await relay
/// readiness only once at least one endpoint is bound or the bind grace
/// timer fired; and the grace timer always ends the binding phase, so the
/// orchestrator never blocks in it forever.
pub proof fn lemma_binding_exit_needs_bound_or_timer(s: OrchestratorV, ev: EventV)
    requires
        wf(s),
        s.phase is Binding,
    ensures
        spec_step(s, ev).0.phase is AwaitingRelayReady ==> (spec_count_bound(
            spec_step(s, ev).0.endpoints,
        ) >= 1 || ev is BindGraceElapsed),
        ev is BindGraceElapsed ==> !(spec_step(s, ev).0.phase is Binding),
        (ev is BindGraceElapsed && (spec_count_bound(s.endpoints) >= 1 || spec_count_pending(
            s.endpoints,
        ) >= 1)) ==> spec_step(s, ev).0.phase is AwaitingRelayReady,
        (ev matches EventV::EndpointBound { index, resolved } && 0 <= index < s.endpoints.len()
            && s.endpoints[index].status is Pending && spec_count_pending(
            spec_step(s, ev).0.endpoints,
        ) == 0) ==> spec_step(s, ev).0.phase is AwaitingRelayReady,
{
    if spec_step(s, ev).0.phase is AwaitingRelayReady {
        match ev {
            EventV::EndpointBound { index, resolved } => {
                let eps = spec_step(s, ev).0.endpoints;
                if 0 <= index < s.endpoints.len() && s.endpoints[index].status is Pending {
                    lemma_count_bound_positive(eps, index);
                }
            },
            _ => {},
        }
    }
}

/// A table with a bound endpoint counts at least one bound endpoint.
proof fn lemma_count_bound_positive(s: Seq<ListenEndpointV>, i: int)
    requires
        0 <= i < s.len(),
        s[i].status is Bound,
    ensures
        spec_count_bound(s) >= 1,
    decreases s.len(),
{
    if i == s.len() - 1 {
    } else {
        lemma_count_bound_positive(s.drop_last(), i);
    }
}

/// Law: if the relay-ready grace timer fires while readiness has not been
/// reached, the orchestrator exits fatally with the relay-unreachable
/// diagnostic instead of hanging.
pub proof fn lemma_relay_grace_exit_is_fatal(s: OrchestratorV)
    requires
        wf(s),
        s.phase is AwaitingRelayReady,
    ensures
        spec_step(s, EventV::RelayReadyGraceElapsed).0.phase is Failed,
        spec_step(s, EventV::RelayReadyGraceElapsed).1 == (ActionV::ExitFatal {
            reason: FatalReason::RelayUnreachable,
        }),
{
}

/// Law: the orchestrator leaves the relay handshake toward the ready
/// phases only once both handshake signals — identity acknowledgment and
/// observed-address discovery — are in hand, whichever arrived last.
pub proof fn lemma_no_advance_without_both_signals(s: OrchestratorV, ev: EventV)
    requires
        wf(s),
        s.phase is AwaitingRelayReady,
    ensures
        ({
            let s2 = spec_step(s, ev).0;
            (s2.phase is Ready || s2.phase is ReservationRequested || s2.phase is DialingTarget
                || s2.phase is Serving) ==> s2.relay.identity_acknowledged
                && s2.relay.observed_address_known
        }),
{
    lemma_step_preserves_wf(s, ev);
}

/// Law: the direct-upgrade-failure event never closes a circuit — every
/// active circuit stays active with its remote — and the affected circuit
/// falls back to `Established`.
pub proof fn lemma_upgrade_failure_never_closes(s: OrchestratorV, remote: Seq<u8>)
    requires
        wf(s),
    ensures
        ({
            let s2 = spec_step(s, EventV::DirectUpgradeFailed { remote }).0;
            &&& s2.circuits.len() == s.circuits.len()
            &&& forall|i: int|
                0 <= i < s.circuits.len() && spec_is_active(s.circuits[i]) ==> spec_is_active(
                    s2.circuits[i],
                ) && s2.circuits[i].remote == s.circuits[i].remote
            &&& ((s.phase is Serving || s.phase is DialingTarget) && spec_active_has_status(
                s.circuits,
                remote,
                CircuitStatus::DirectUpgradeInProgress,
            )) ==> spec_active_has_status(s2.circuits, remote, CircuitStatus::Established)
        }),
{
    let s2 = spec_step(s, EventV::DirectUpgradeFailed { remote }).0;
    if !(s.phase is Done) && !(s.phase is Failed) && (s.phase is Serving || s.phase
        is DialingTarget) && spec_active_has_status(
        s.circuits,
        remote,
        CircuitStatus::DirectUpgradeInProgress,
    ) {
        assert forall|i: int|
            0 <= i < s.circuits.len() && spec_is_active(s.circuits[i]) implies spec_is_active(
            s2.circuits[i],
        ) && s2.circuits[i].remote == s.circuits[i].remote by {
            assert(s2.circuits[i] == (if s.circuits[i].remote == remote && spec_is_active(
                s.circuits[i],
            ) {
                CircuitV { remote: s.circuits[i].remote, status: CircuitStatus::Established }
            } else {
                s.circuits[i]
            }));
        }
        let j = choose|j: int|
            0 <= j < s.circuits.len() && s.circuits[j].remote == remote && spec_is_active(
                s.circuits[j],
            ) && s.circuits[j].status == CircuitStatus::DirectUpgradeInProgress;
        assert(s2.circuits[j] == (CircuitV { remote, status: CircuitStatus::Established }));
    }
}

/// Law: a relay disconnect always resets the reservation to
/// `NotRequested`, and no step restores `Accepted` except the relay's
/// acceptance of a fresh outstanding request.
pub proof fn lemma_reservation_accepted_only_freshly(s: OrchestratorV, ev: EventV)
    requires
        wf(s),
    ensures
        !(s.relay.status is Disconnected) && !(s.phase is Done) && !(s.phase is Failed)
            ==> spec_step(s, EventV::RelayDisconnected).0.reservation is NotRequested,
        spec_step(s, ev).0.reservation is Accepted ==> (s.reservation is Accepted || (ev
            is ReservationAccepted && s.reservation is Requested)),
{
}

} // verus!

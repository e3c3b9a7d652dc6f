//! Relayed circuits and their direct upgrade.
//!
//! A circuit is an active relayed path to one remote peer. Once it is
//! established the coordinator may attempt a direct upgrade (hole punch);
//! on failure the circuit falls back to `Established` — upgrade failure
//! never tears the relayed path down. `Closed` is terminal and is always
//! attributable to an event: remote disconnect, local close, or relay
//! session loss (unless a direct connection independently exists).

use vstd::prelude::*;
use crate::identity::PeerIdentity;

verus! {

/// Lifecycle of one circuit to a remote peer.
#[derive(Clone, Copy, PartialEq, Eq, Structural, Debug)]
pub enum CircuitStatus {
    /// A circuit dial was issued and has not completed.
    Dialing,
    /// The relayed path carries traffic.
    Established,
    /// Candidate exchange and simultaneous direct dials are in flight.
    DirectUpgradeInProgress,
    /// A direct connection exists; the relayed circuit stays open as
    /// fallback until explicitly closed.
    DirectEstablished,
    /// Terminal.
    Closed,
}

/// Spec-level form of one circuit.
pub ghost struct CircuitV {
    pub remote: Seq<u8>,
    pub status: CircuitStatus,
}

/// An active relayed path to one remote peer.
pub struct Circuit {
    remote: PeerIdentity,
    status: CircuitStatus,
}

impl View for Circuit {
    type V = CircuitV;

    closed spec fn view(&self) -> CircuitV {
        CircuitV { remote: self.remote@, status: self.status }
    }
}

impl Circuit {
    /// A circuit whose dial was just issued.
    pub fn dialing(remote: PeerIdentity) -> (r: Circuit)
        ensures
            r@ == (CircuitV { remote: remote@, status: CircuitStatus::Dialing }),
    {
        Circuit { remote, status: CircuitStatus::Dialing }
    }

    /// An inbound circuit, already established by the remote dialer.
    pub fn established(remote: PeerIdentity) -> (r: Circuit)
        ensures
            r@ == (CircuitV { remote: remote@, status: CircuitStatus::Established }),
    {
        Circuit { remote, status: CircuitStatus::Established }
    }

    /// A circuit to a remote peer in a given lifecycle state.
    pub fn new(remote: PeerIdentity, status: CircuitStatus) -> (r: Circuit)
        ensures
            r@ == (CircuitV { remote: remote@, status }),
    {
        Circuit { remote, status }
    }

    /// The remote peer this circuit reaches.
    pub fn remote(&self) -> (r: &PeerIdentity)
        ensures
            r@ == self@.remote,
    {
        &self.remote
    }

    /// Current lifecycle status.
    pub fn status(&self) -> (r: CircuitStatus)
        ensures
            r == self@.status,
    {
        self.status
    }

}

/// Status after the relay session is lost: closed, unless a direct
/// connection has independently been established.
pub open spec fn spec_status_on_relay_loss(st: CircuitStatus) -> CircuitStatus {
    if st is DirectEstablished {
        CircuitStatus::DirectEstablished
    } else {
        CircuitStatus::Closed
    }
}

/// Status after a failed direct upgrade: back to `Established`.
pub open spec fn spec_status_on_upgrade_failure(st: CircuitStatus) -> CircuitStatus {
    CircuitStatus::Established
}

/// Law: a failed direct upgrade falls back to the established relayed
/// circuit; it never closes it.
pub proof fn lemma_upgrade_failure_keeps_circuit(st: CircuitStatus)
    ensures
        spec_status_on_upgrade_failure(st) == CircuitStatus::Established,
        spec_status_on_upgrade_failure(st) != CircuitStatus::Closed,
{
}

} // verus!

//! The reservation with the relay.
//!
//! An accepted reservation lets other peers reach this peer by dialing the
//! relay's circuit address for it. A reservation lives strictly inside one
//! relay session: when the session disconnects, the reservation returns to
//! `NotRequested`, and a reconnected session starts with none until a fresh
//! request is made.

use vstd::prelude::*;

verus! {

/// Lifecycle of this peer's registration with the relay.
#[derive(Clone, Copy, PartialEq, Eq, Structural, Debug)]
pub enum ReservationStatus {
    /// No request outstanding and none granted.
    NotRequested,
    /// A request was sent on the current relay session.
    Requested,
    /// The relay accepted; other peers can reach us through it.
    Accepted,
    /// The relay denied; terminal for this relay session.
    Rejected,
}

/// A fresh request on a connected session.
pub open spec fn spec_request(r: ReservationStatus) -> ReservationStatus {
    ReservationStatus::Requested
}

/// The relay accepted the outstanding request.
pub open spec fn spec_on_accepted(r: ReservationStatus) -> ReservationStatus {
    ReservationStatus::Accepted
}

/// The relay denied the outstanding request.
pub open spec fn spec_on_rejected(r: ReservationStatus) -> ReservationStatus {
    ReservationStatus::Rejected
}

/// The relay session disconnected: the reservation does not outlive it.
pub open spec fn spec_on_relay_disconnected(r: ReservationStatus) -> ReservationStatus {
    ReservationStatus::NotRequested
}

/// The relay session reconnected: reconnection by itself carries no
/// reservation over.
pub open spec fn spec_on_relay_reconnected(r: ReservationStatus) -> ReservationStatus {
    r
}

/// Law: whenever the relay session disconnects the reservation returns to
/// `NotRequested`, and a subsequent reconnection does not restore the
/// earlier `Accepted` status — after disconnect and reconnect the
/// reservation is still `NotRequested` until a fresh request is made.
pub proof fn lemma_reservation_does_not_outlive_session(r: ReservationStatus)
    ensures
        spec_on_relay_disconnected(r) == ReservationStatus::NotRequested,
        spec_on_relay_reconnected(spec_on_relay_disconnected(r))
            == ReservationStatus::NotRequested,
        spec_on_relay_reconnected(spec_on_relay_disconnected(r)) != ReservationStatus::Accepted,
{
}

} // verus!

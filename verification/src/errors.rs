//! Error taxonomy.
//!
//! Three classes with different propagation: fatal startup conditions end
//! the process with a nonzero exit; negotiation setbacks are absorbed and
//! the session continues on its fallback path; protocol violations are
//! events that are structurally impossible in the current state and are
//! reported distinctly from ordinary network failure.

use vstd::prelude::*;

verus! {

/// Why one listening-socket bind attempt failed.
#[derive(Clone, Copy, PartialEq, Eq, Structural, Debug)]
pub enum BindError {
    /// The requested address cannot be assigned on this host.
    AddressUnavailable,
    /// The local policy or OS denied the bind.
    PermissionDenied,
    /// The transport kind is not available on this host.
    Unsupported,
    /// Any other transport-layer failure.
    Other,
}

/// A fatal startup condition: the process must exit nonzero.
#[derive(Clone, Copy, PartialEq, Eq, Structural, Debug)]
pub enum FatalReason {
    /// Every requested transport failed to bind.
    NoTransportBound,
    /// The relay did not become ready within the grace window.
    RelayUnreachable,
    /// The dialed target peer cannot be reached through the relay.
    TargetUnreachable,
}

/// A recoverable negotiation setback: surfaced, but the session continues
/// in a degraded or fallback mode and the process does not exit.
#[derive(Clone, Copy, PartialEq, Eq, Structural, Debug)]
pub enum NegotiationSetback {
    /// The relay denied the reservation request; terminal for this relay
    /// session, a reconnected session may request afresh.
    ReservationRejected,
    /// The direct-upgrade attempt timed out or failed; the relayed circuit
    /// remains the data path.
    HolePunchFailed,
}

} // verus!

//! The session with one relay.
//!
//! After dialing the relay, the peer runs an identity exchange with two
//! independent completion signals: the relay acknowledges receipt of our
//! identity, and we learn our externally observed address as the relay sees
//! it. The two may arrive in either order; the session is *ready* only on
//! their conjunction, and readiness gates every later phase.

use vstd::prelude::*;
use crate::address::{NetworkAddress, SegmentV};

verus! {

/// Connection state toward the relay.
#[derive(Clone, Copy, PartialEq, Eq, Structural, Debug)]
pub enum RelayStatus {
    /// No connection and none in flight.
    Disconnected,
    /// A dial was issued and has not completed.
    Connecting,
    /// The transport connection is up.
    Connected,
}

/// Spec-level form of the relay session.
pub ghost struct RelaySessionV {
    pub relay_addr: Seq<SegmentV>,
    pub status: RelayStatus,
    pub identity_acknowledged: bool,
    pub observed_address_known: bool,
    pub observed_addr: Option<Seq<SegmentV>>,
}

/// A session that knows its relay's address but has not dialed yet.
pub open spec fn spec_idle(addr: Seq<SegmentV>) -> RelaySessionV {
    RelaySessionV {
        relay_addr: addr,
        status: RelayStatus::Disconnected,
        identity_acknowledged: false,
        observed_address_known: false,
        observed_addr: None,
    }
}

/// A fresh session for a relay address: a dial is in flight, neither
/// handshake signal has arrived.
pub open spec fn spec_dial(addr: Seq<SegmentV>) -> RelaySessionV {
    RelaySessionV {
        relay_addr: addr,
        status: RelayStatus::Connecting,
        identity_acknowledged: false,
        observed_address_known: false,
        observed_addr: None,
    }
}

/// The transport connection completed.
pub open spec fn spec_on_connected(s: RelaySessionV) -> RelaySessionV {
    RelaySessionV {
        relay_addr: s.relay_addr,
        status: RelayStatus::Connected,
        identity_acknowledged: s.identity_acknowledged,
        observed_address_known: s.observed_address_known,
        observed_addr: s.observed_addr,
    }
}

/// The relay confirmed receipt of our identity.
pub open spec fn spec_on_identity_acknowledged(s: RelaySessionV) -> RelaySessionV {
    RelaySessionV {
        relay_addr: s.relay_addr,
        status: s.status,
        identity_acknowledged: true,
        observed_address_known: s.observed_address_known,
        observed_addr: s.observed_addr,
    }
}

/// We learned the address the relay observes for us.
pub open spec fn spec_on_observed_address(s: RelaySessionV, addr: Seq<SegmentV>) -> RelaySessionV {
    RelaySessionV {
        relay_addr: s.relay_addr,
        status: s.status,
        identity_acknowledged: s.identity_acknowledged,
        observed_address_known: true,
        observed_addr: Some(addr),
    }
}

/// The connection is gone: both handshake signals are void for the next
/// connection and must be re-earned.
pub open spec fn spec_on_disconnected(s: RelaySessionV) -> RelaySessionV {
    RelaySessionV {
        relay_addr: s.relay_addr,
        status: RelayStatus::Disconnected,
        identity_acknowledged: false,
        observed_address_known: false,
        observed_addr: None,
    }
}

/// Readiness: connected, identity acknowledged, and observed address
/// known — the conjunction, never less.
pub open spec fn spec_ready(s: RelaySessionV) -> bool {
    &&& s.status is Connected
    &&& s.identity_acknowledged
    &&& s.observed_address_known
}

/// The logical relationship with one relay.
pub struct RelaySession {
    relay_addr: NetworkAddress,
    status: RelayStatus,
    identity_acknowledged: bool,
    observed_address_known: bool,
    observed_addr: Option<NetworkAddress>,
}

impl View for RelaySession {
    type V = RelaySessionV;

    closed spec fn view(&self) -> RelaySessionV {
        RelaySessionV {
            relay_addr: self.relay_addr@,
            status: self.status,
            identity_acknowledged: self.identity_acknowledged,
            observed_address_known: self.observed_address_known,
            observed_addr: match self.observed_addr {
                Some(a) => Some(a@),
                None => None,
            },
        }
    }
}

impl RelaySession {
    /// A session for a relay that has not been dialed yet.
    pub fn idle(relay_addr: NetworkAddress) -> (r: RelaySession)
        ensures
            r@ == spec_idle(relay_addr@),
    {
        RelaySession {
            relay_addr,
            status: RelayStatus::Disconnected,
            identity_acknowledged: false,
            observed_address_known: false,
            observed_addr: None,
        }
    }

    /// Starts a session by dialing the relay.
    pub fn connect(relay_addr: NetworkAddress) -> (r: RelaySession)
        ensures
            r@ == spec_dial(relay_addr@),
    {
        RelaySession {
            relay_addr,
            status: RelayStatus::Connecting,
            identity_acknowledged: false,
            observed_address_known: false,
            observed_addr: None,
        }
    }

    /// Connection state.
    pub fn status(&self) -> (r: RelayStatus)
        ensures
            r == self@.status,
    {
        self.status
    }

    /// The relay's own address, for re-dialing and for composing circuit
    /// addresses.
    pub fn relay_addr(&self) -> (r: &NetworkAddress)
        ensures
            r@ == self@.relay_addr,
    {
        &self.relay_addr
    }

    /// The externally observed address, once learned.
    pub fn observed_addr(&self) -> (r: &Option<NetworkAddress>)
        ensures
            match r {
                Some(a) => self@.observed_addr == Some(a@),
                None => self@.observed_addr is None,
            },
    {
        &self.observed_addr
    }

    /// The transport dial completed.
    pub fn on_connected(&mut self)
        ensures
            final(self)@ == spec_on_connected(old(self)@),
    {
        self.status = RelayStatus::Connected;
    }

    /// The relay acknowledged our identity (first handshake signal).
    pub fn on_identity_acknowledged(&mut self)
        ensures
            final(self)@ == spec_on_identity_acknowledged(old(self)@),
    {
        self.identity_acknowledged = true;
    }

    /// We learned our observed address (second handshake signal).
    pub fn on_observed_address(&mut self, addr: NetworkAddress)
        ensures
            final(self)@ == spec_on_observed_address(old(self)@, addr@),
    {
        self.observed_address_known = true;
        self.observed_addr = Some(addr);
    }

    /// The connection is gone; the handshake signals are reset.
    pub fn on_disconnected(&mut self)
        ensures
            final(self)@ == spec_on_disconnected(old(self)@),
    {
        self.status = RelayStatus::Disconnected;
        self.identity_acknowledged = false;
        self.observed_address_known = false;
        self.observed_addr = None;
    }

    /// Re-dials the relay after a disconnect, resetting both signals.
    pub fn redial(&mut self)
        ensures
            final(self)@ == spec_dial(old(self)@.relay_addr),
    {
        self.status = RelayStatus::Connecting;
        self.identity_acknowledged = false;
        self.observed_address_known = false;
        self.observed_addr = None;
    }

    /// Whether the session is ready: connected with both handshake
    /// signals in hand, never on less.
    pub fn is_ready(&self) -> (r: bool)
        ensures
            r == spec_ready(self@),
    {
        let connected = match self.status {
            RelayStatus::Connected => true,
            _ => false,
        };
        connected && self.identity_acknowledged && self.observed_address_known
    }
}

/// Law: readiness is exactly the conjunction of being connected, identity
/// acknowledgment, and observed-address discovery; it is never signaled
/// when either handshake flag is missing.
pub proof fn lemma_ready_is_conjunction(s: RelaySessionV)
    ensures
        spec_ready(s) <==> (s.status is Connected && s.identity_acknowledged
            && s.observed_address_known),
        !s.identity_acknowledged ==> !spec_ready(s),
        !s.observed_address_known ==> !spec_ready(s),
{
}

/// Law: the two handshake signals commute. A session that saw the identity
/// acknowledgment and the observed-address discovery in either order is the
/// same session, and on a connected session either order ends ready.
pub proof fn lemma_handshake_order_irrelevant(s: RelaySessionV, addr: Seq<SegmentV>)
    ensures
        spec_on_observed_address(spec_on_identity_acknowledged(s), addr)
            == spec_on_identity_acknowledged(spec_on_observed_address(s, addr)),
        s.status is Connected ==> spec_ready(
            spec_on_observed_address(spec_on_identity_acknowledged(s), addr),
        ),
{
}

} // verus!

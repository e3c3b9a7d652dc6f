//! Structured, composable network addresses.
//!
//! An address is a sequence of segments: network-layer location, transport
//! kind and port, and the two relay-specific markers — the circuit marker
//! ("reach the next hop through this relay") and a trailing peer identity
//! ("the peer to reach"). A relay address composed with the circuit marker
//! and a target identity is a *circuit address*; composition is
//! order-preserving and splits back into exactly the original components.

use vstd::prelude::*;
use crate::identity::PeerIdentity;

verus! {

/// Spec-level form of one address segment.
pub ghost enum SegmentV {
    Ip4 { a: u8, b: u8, c: u8, d: u8 },
    Tcp { port: u16 },
    Udp { port: u16 },
    QuicV1,
    P2pCircuit,
    P2p { peer: Seq<u8> },
}

/// One segment of a structured network address.
pub enum Segment {
    /// A network-layer host address.
    Ip4 { a: u8, b: u8, c: u8, d: u8 },
    /// Stream-oriented transport on a port.
    Tcp { port: u16 },
    /// Datagram-oriented transport on a port.
    Udp { port: u16 },
    /// Stream transport layered over the datagram listener.
    QuicV1,
    /// Marker: the previous segments name a relay to route through.
    P2pCircuit,
    /// A trailing peer identity.
    P2p { peer: PeerIdentity },
}

impl View for Segment {
    type V = SegmentV;

    open spec fn view(&self) -> SegmentV {
        match *self {
            Segment::Ip4 { a, b, c, d } => SegmentV::Ip4 { a, b, c, d },
            Segment::Tcp { port } => SegmentV::Tcp { port },
            Segment::Udp { port } => SegmentV::Udp { port },
            Segment::QuicV1 => SegmentV::QuicV1,
            Segment::P2pCircuit => SegmentV::P2pCircuit,
            Segment::P2p { peer } => SegmentV::P2p { peer: peer@ },
        }
    }
}

impl Clone for Segment {
    /// Cloning preserves the segment's abstract value.
    fn clone(&self) -> (r: Self)
        ensures
            r@ == self@,
    {
        match self {
            Segment::Ip4 { a, b, c, d } => Segment::Ip4 { a: *a, b: *b, c: *c, d: *d },
            Segment::Tcp { port } => Segment::Tcp { port: *port },
            Segment::Udp { port } => Segment::Udp { port: *port },
            Segment::QuicV1 => Segment::QuicV1,
            Segment::P2pCircuit => Segment::P2pCircuit,
            Segment::P2p { peer } => Segment::P2p { peer: peer.clone() },
        }
    }
}

/// A structured, multi-segment network address.
pub struct NetworkAddress {
    segs: Vec<Segment>,
}

impl View for NetworkAddress {
    type V = Seq<SegmentV>;

    closed spec fn view(&self) -> Seq<SegmentV> {
        self.segs@.map_values(|s: Segment| s@)
    }
}

/// Appending the circuit marker and then a target identity to a base
/// address yields the circuit address for that target via that relay.
pub open spec fn spec_circuit_to(base: Seq<SegmentV>, target: Seq<u8>) -> Seq<SegmentV> {
    base.push(SegmentV::P2pCircuit).push(SegmentV::P2p { peer: target })
}

/// The identity carried by a trailing-peer segment.
pub open spec fn spec_p2p_peer(s: SegmentV) -> Seq<u8> {
    match s {
        SegmentV::P2p { peer } => peer,
        _ => Seq::empty(),
    }
}

/// Splits a circuit address back into the relay base address and the
/// target identity; anything not of that shape has no split.
pub open spec fn spec_split_circuit_target(addr: Seq<SegmentV>) -> Option<(Seq<SegmentV>, Seq<u8>)> {
    if addr.len() >= 2 && addr[addr.len() - 2] is P2pCircuit && addr.last() is P2p {
        Some((addr.take(addr.len() - 2), spec_p2p_peer(addr.last())))
    } else {
        None
    }
}

impl NetworkAddress {
    /// The empty address, extended segment by segment.
    pub fn empty() -> (r: NetworkAddress)
        ensures
            r@ == Seq::<SegmentV>::empty(),
    {
        let r = NetworkAddress { segs: Vec::new() };
        proof {
            assert(r@ =~= Seq::<SegmentV>::empty());
        }
        r
    }

    /// Wraps an explicit segment list.
    pub fn from_segments(segs: Vec<Segment>) -> (r: NetworkAddress)
        ensures
            r@ == segs@.map_values(|s: Segment| s@),
    {
        NetworkAddress { segs }
    }

    /// Number of segments.
    pub fn segment_count(&self) -> (r: usize)
        ensures
            r == self@.len(),
    {
        self.segs.len()
    }

    /// The segment at a position.
    pub fn segment_at(&self, i: usize) -> (r: &Segment)
        requires
            i < self@.len(),
        ensures
            r@ == self@[i as int],
    {
        &self.segs[i]
    }

    /// Appends one segment, preserving the order of the existing ones.
    pub fn with(self, seg: Segment) -> (r: NetworkAddress)
        ensures
            r@ == self@.push(seg@),
    {
        let ghost old_view = self@;
        let ghost segv = seg@;
        let mut segs = self.segs;
        segs.push(seg);
        let r = NetworkAddress { segs };
        proof {
            assert(r@ =~= old_view.push(segv));
        }
        r
    }

    /// The circuit address for reaching `target` through this relay:
    /// this address, then the circuit marker, then the target identity.
    pub fn circuit_to(&self, target: &PeerIdentity) -> (r: NetworkAddress)
        ensures
            r@ == spec_circuit_to(self@, target@),
    {
        let base = self.clone();
        let with_marker = base.with(Segment::P2pCircuit);
        with_marker.with(Segment::P2p { peer: target.clone() })
    }

    /// Splits a circuit address into its relay base address and target
    /// identity; returns nothing when this address is not a circuit
    /// address.
    pub fn split_circuit_target(&self) -> (r: Option<(NetworkAddress, PeerIdentity)>)
        ensures
            match r {
                Some(parts) => spec_split_circuit_target(self@) == Some((parts.0@, parts.1@)),
                None => spec_split_circuit_target(self@) is None,
            },
    {
        let n = self.segs.len();
        if n < 2 {
            return None;
        }
        let marker_ok = match &self.segs[n - 2] {
            Segment::P2pCircuit => true,
            _ => false,
        };
        if !marker_ok {
            return None;
        }
        match &self.segs[n - 1] {
            Segment::P2p { peer } => {
                let mut base_segs: Vec<Segment> = Vec::new();
                let mut i: usize = 0;
                while i < n - 2
                    invariant
                        i <= n - 2,
                        n == self.segs@.len(),
                        base_segs@.len() == i,
                        forall|j: int| 0 <= j < i ==> base_segs@[j]@ == self.segs@[j]@,
                    decreases n - 2 - i,
                {
                    base_segs.push(self.segs[i].clone());
                    i = i + 1;
                }
                let base = NetworkAddress { segs: base_segs };
                let target = peer.clone();
                proof {
                    assert(base@ =~= self@.take(self@.len() - 2));
                    assert(spec_p2p_peer(self@.last()) == target@);
                }
                Some((base, target))
            },
            _ => None,
        }
    }
}

impl Clone for NetworkAddress {
    /// Cloning preserves the segment sequence.
    fn clone(&self) -> (r: Self)
        ensures
            r@ == self@,
    {
        let mut segs: Vec<Segment> = Vec::new();
        let mut i: usize = 0;
        let n = self.segs.len();
        while i < n
            invariant
                i <= n,
                n == self.segs@.len(),
                segs@.len() == i,
                forall|j: int| 0 <= j < i ==> segs@[j]@ == self.segs@[j]@,
            decreases n - i,
        {
            segs.push(self.segs[i].clone());
            i = i + 1;
        }
        let r = NetworkAddress { segs };
        proof {
            assert(r@ =~= self@);
        }
        r
    }
}

/// Law: composing a base address with the circuit marker and a target
/// identity, then splitting the composite, yields exactly the original
/// base address and target identity.
pub proof fn lemma_circuit_compose_round_trip(base: Seq<SegmentV>, target: Seq<u8>)
    ensures
        spec_split_circuit_target(spec_circuit_to(base, target)) == Some((base, target)),
{
    let c = spec_circuit_to(base, target);
    assert(c.len() == base.len() + 2);
    assert(c[c.len() - 2] == SegmentV::P2pCircuit);
    assert(c.last() == (SegmentV::P2p { peer: target }));
    assert(c.take(c.len() - 2) =~= base);
}

} // verus!

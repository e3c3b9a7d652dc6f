//! Opaque peer identities.
//!
//! A participant is named by an opaque, globally unique identifier. The
//! protocol never inspects it; it is only carried, compared for equality,
//! and used as a key wherever peers are tracked.

use vstd::prelude::*;

verus! {

/// An opaque, immutable peer identifier: a non-empty byte string.
pub struct PeerIdentity {
    bytes: Vec<u8>,
}

impl View for PeerIdentity {
    type V = Seq<u8>;

    closed spec fn view(&self) -> Seq<u8> {
        self.bytes@
    }
}

impl PeerIdentity {
    /// An identity is well formed when it is non-empty.
    pub open spec fn wf(&self) -> bool {
        self@.len() > 0
    }

    /// Wraps raw identity bytes; rejects an empty byte string.
    pub fn new(bytes: Vec<u8>) -> (r: Option<PeerIdentity>)
        ensures
            bytes@.len() > 0 ==> (r matches Some(p) && p@ == bytes@ && p.wf()),
            bytes@.len() == 0 ==> r is None,
    {
        if bytes.len() > 0 {
            Some(PeerIdentity { bytes })
        } else {
            None
        }
    }

    /// A deterministic test identity derived from a small seed.
    pub fn from_seed(seed: u8) -> (r: PeerIdentity)
        ensures
            r@ == seed_key_bytes_spec(seed),
            r.wf(),
    {
        let bytes = seed_key_bytes(seed);
        proof {
            assert(bytes@[0] == seed);
        }
        PeerIdentity { bytes }
    }

    /// The identity bytes, for hand-off to the transport layer.
    pub fn as_bytes(&self) -> (r: &Vec<u8>)
        ensures
            r@ == self@,
    {
        &self.bytes
    }

    /// Equality of the underlying identity bytes.
    pub fn same(&self, other: &PeerIdentity) -> (r: bool)
        ensures
            r == (self@ == other@),
    {
        let r = self.bytes == other.bytes;
        proof {
            if r {
                assert(self.bytes@ =~= other.bytes@);
            } else {
                if self.bytes@ == other.bytes@ {
                    assert(forall|i: int|
                        0 <= i < self.bytes@.len() ==> self.bytes@[i] == other.bytes@[i]);
                    assert(false);
                }
            }
        }
        r
    }
}

impl Clone for PeerIdentity {
    /// Cloning preserves the identity bytes.
    fn clone(&self) -> (r: Self)
        ensures
            r@ == self@,
    {
        PeerIdentity { bytes: self.bytes.clone() }
    }
}

/// The key material the identity of a seeded test peer is derived from:
/// thirty-two bytes, the seed first, the rest zero.
pub open spec fn seed_key_bytes_spec(seed: u8) -> Seq<u8> {
    Seq::new(32, |i: int| if i == 0 { seed } else { 0u8 })
}

/// Builds the deterministic key-seed byte string for a local secret seed.
pub fn seed_key_bytes(seed: u8) -> (r: Vec<u8>)
    ensures
        r@ == seed_key_bytes_spec(seed),
{
    let mut bytes: Vec<u8> = Vec::new();
    bytes.push(seed);
    let mut i: usize = 1;
    while i < 32
        invariant
            1 <= i <= 32,
            bytes@.len() == i,
            bytes@[0] == seed,
            forall|j: int| 1 <= j < i ==> bytes@[j] == 0u8,
        decreases 32 - i,
    {
        bytes.push(0u8);
        i = i + 1;
    }
    proof {
        assert(bytes@ =~= seed_key_bytes_spec(seed));
    }
    bytes
}

} // verus!

//! Canonical text form of network addresses.
//!
//! Each segment is written as its name followed by its value in fixed-width
//! lowercase hexadecimal: four octet pairs for a host address, two byte
//! pairs for a port, and for a trailing peer identity one length byte
//! followed by the identity bytes. The form is canonical and round-trips:
//! parsing the rendering of an address yields exactly that address.

use vstd::prelude::*;
use crate::address::{NetworkAddress, Segment, SegmentV, spec_p2p_peer};
use crate::identity::PeerIdentity;

verus! {

/// Relies on `String::push`: appends exactly the given character.
pub assume_specification[ String::push ](s: &mut String, value: char)
    ensures
        final(s)@ == old(s)@.push(value),
;

/// The lowercase hexadecimal digit of a value below sixteen.
pub open spec fn spec_hex_char(d: nat) -> char {
    if d == 0 { '0' }
    else if d == 1 { '1' }
    else if d == 2 { '2' }
    else if d == 3 { '3' }
    else if d == 4 { '4' }
    else if d == 5 { '5' }
    else if d == 6 { '6' }
    else if d == 7 { '7' }
    else if d == 8 { '8' }
    else if d == 9 { '9' }
    else if d == 10 { 'a' }
    else if d == 11 { 'b' }
    else if d == 12 { 'c' }
    else if d == 13 { 'd' }
    else if d == 14 { 'e' }
    else { 'f' }
}

/// The value of a hexadecimal digit; sixteen for any other character.
pub open spec fn spec_hex_val(c: char) -> nat {
    if c == '0' { 0 }
    else if c == '1' { 1 }
    else if c == '2' { 2 }
    else if c == '3' { 3 }
    else if c == '4' { 4 }
    else if c == '5' { 5 }
    else if c == '6' { 6 }
    else if c == '7' { 7 }
    else if c == '8' { 8 }
    else if c == '9' { 9 }
    else if c == 'a' { 10 }
    else if c == 'b' { 11 }
    else if c == 'c' { 12 }
    else if c == 'd' { 13 }
    else if c == 'e' { 14 }
    else if c == 'f' { 15 }
    else { 16 }
}

pub open spec fn spec_is_hex(c: char) -> bool {
    spec_hex_val(c) < 16
}

/// Digit then value recovers the digit.
pub proof fn lemma_hex_char_val(d: nat)
    requires
        d < 16,
    ensures
        spec_hex_val(spec_hex_char(d)) == d,
        spec_is_hex(spec_hex_char(d)),
{
}

/// A byte string as hexadecimal text, two digits per byte.
pub open spec fn spec_hex_bytes(bs: Seq<u8>) -> Seq<char> {
    Seq::new(
        2 * bs.len(),
        |i: int|
            if i % 2 == 0 {
                spec_hex_char((bs[i / 2] as nat) / 16)
            } else {
                spec_hex_char((bs[i / 2] as nat) % 16)
            },
    )
}

/// Every character in the range is a hexadecimal digit.
pub open spec fn spec_all_hex(t: Seq<char>, from: int, to: int) -> bool {
    forall|i: int| from <= i < to ==> spec_is_hex(t[i])
}

/// The bytes written in hexadecimal starting at a position.
pub open spec fn spec_decode_hex(t: Seq<char>, from: int, count: nat) -> Seq<u8> {
    Seq::new(
        count,
        |i: int| (spec_hex_val(t[from + 2 * i]) * 16 + spec_hex_val(t[from + 2 * i + 1])) as u8,
    )
}

pub open spec fn ip4_name() -> Seq<char> {
    seq!['/', 'i', 'p', '4', '/']
}

pub open spec fn tcp_name() -> Seq<char> {
    seq!['/', 't', 'c', 'p', '/']
}

pub open spec fn udp_name() -> Seq<char> {
    seq!['/', 'u', 'd', 'p', '/']
}

pub open spec fn quic_name() -> Seq<char> {
    seq!['/', 'q', 'u', 'i', 'c', '-', 'v', '1']
}

pub open spec fn circuit_name() -> Seq<char> {
    seq!['/', 'p', '2', 'p', '-', 'c', 'i', 'r', 'c', 'u', 'i', 't']
}

pub open spec fn p2p_name() -> Seq<char> {
    seq!['/', 'p', '2', 'p', '/']
}

/// A port as its two big-endian bytes.
pub open spec fn spec_u16_bytes(port: u16) -> Seq<u8> {
    seq![(port / 256) as u8, (port % 256) as u8]
}

/// The canonical text of one segment.
pub open spec fn spec_render_segment(s: SegmentV) -> Seq<char> {
    match s {
        SegmentV::Ip4 { a, b, c, d } => ip4_name() + spec_hex_bytes(seq![a, b, c, d]),
        SegmentV::Tcp { port } => tcp_name() + spec_hex_bytes(spec_u16_bytes(port)),
        SegmentV::Udp { port } => udp_name() + spec_hex_bytes(spec_u16_bytes(port)),
        SegmentV::QuicV1 => quic_name(),
        SegmentV::P2pCircuit => circuit_name(),
        SegmentV::P2p { peer } => p2p_name() + spec_hex_bytes(seq![peer.len() as u8] + peer),
    }
}

/// The canonical text of an address: its segments' texts in order.
pub open spec fn spec_render(a: Seq<SegmentV>) -> Seq<char>
    decreases a.len(),
{
    if a.len() == 0 {
        Seq::empty()
    } else {
        spec_render_segment(a.first()) + spec_render(a.drop_first())
    }
}

/// An address has a canonical text when every trailing peer identity in it
/// is non-empty and fits the one-byte length field.
pub open spec fn spec_renderable(a: Seq<SegmentV>) -> bool {
    forall|i: int|
        0 <= i < a.len() ==> (a[i] is P2p ==> 1 <= spec_p2p_peer(a[i]).len() < 256)
}

/// Parses canonical text back into segments; anything else has no parse.
pub open spec fn spec_parse(t: Seq<char>) -> Option<Seq<SegmentV>>
    decreases t.len(),
{
    if t.len() == 0 {
        Some(Seq::empty())
    } else if t.len() >= 13 && t.subrange(0, 5) == ip4_name() && spec_all_hex(t, 5, 13) {
        let bs = spec_decode_hex(t, 5, 4);
        match spec_parse(t.skip(13)) {
            Some(a) => Some(
                seq![SegmentV::Ip4 { a: bs[0], b: bs[1], c: bs[2], d: bs[3] }] + a,
            ),
            None => None,
        }
    } else if t.len() >= 9 && t.subrange(0, 5) == tcp_name() && spec_all_hex(t, 5, 9) {
        let bs = spec_decode_hex(t, 5, 2);
        match spec_parse(t.skip(9)) {
            Some(a) => Some(
                seq![SegmentV::Tcp { port: (bs[0] as nat * 256 + bs[1] as nat) as u16 }] + a,
            ),
            None => None,
        }
    } else if t.len() >= 9 && t.subrange(0, 5) == udp_name() && spec_all_hex(t, 5, 9) {
        let bs = spec_decode_hex(t, 5, 2);
        match spec_parse(t.skip(9)) {
            Some(a) => Some(
                seq![SegmentV::Udp { port: (bs[0] as nat * 256 + bs[1] as nat) as u16 }] + a,
            ),
            None => None,
        }
    } else if t.len() >= 8 && t.subrange(0, 8) == quic_name() {
        match spec_parse(t.skip(8)) {
            Some(a) => Some(seq![SegmentV::QuicV1] + a),
            None => None,
        }
    } else if t.len() >= 12 && t.subrange(0, 12) == circuit_name() {
        match spec_parse(t.skip(12)) {
            Some(a) => Some(seq![SegmentV::P2pCircuit] + a),
            None => None,
        }
    } else if t.len() >= 7 && t.subrange(0, 5) == p2p_name() && spec_all_hex(t, 5, 7) {
        let count = spec_hex_val(t[5]) * 16 + spec_hex_val(t[6]);
        if 1 <= count && t.len() >= 7 + 2 * count && spec_all_hex(t, 7, 7 + 2 * count as int) {
            let peer = spec_decode_hex(t, 7, count);
            match spec_parse(t.skip(7 + 2 * count as int)) {
                Some(a) => Some(seq![SegmentV::P2p { peer }] + a),
                None => None,
            }
        } else {
            None
        }
    } else {
        None
    }
}

/// Law: the canonical text form round-trips — parsing the rendering of any
/// renderable address yields exactly the original segments.
#[verifier::rlimit(100)]
#[verifier::spinoff_prover]
pub proof fn lemma_text_round_trip(a: Seq<SegmentV>)
    requires
        spec_renderable(a),
    ensures
        spec_parse(spec_render(a)) == Some(a),
    decreases a.len(),
{
    if a.len() == 0 {
    } else {
        let st = spec_render_segment(a.first());
        let rest = spec_render(a.drop_first());
        let t = st + rest;
        assert(spec_render(a) == t);
        assert(spec_renderable(a.drop_first())) by {
            assert(forall|i: int|
                0 <= i < a.drop_first().len() ==> a.drop_first()[i] == a[i + 1]);
        }
        lemma_text_round_trip(a.drop_first());
        assert(seq![a.first()] + a.drop_first() =~= a);
        match a.first() {
            SegmentV::Ip4 { a: x0, b: x1, c: x2, d: x3 } => {
                let bs = seq![x0, x1, x2, x3];
                assert(st.len() == 13);
                assert(t.subrange(0, 5) =~= ip4_name());
                assert forall|i: int| 5 <= i < 13 implies spec_is_hex(t[i]) by {
                    assert(t[i] == spec_hex_bytes(bs)[i - 5]);
                    if (i - 5) % 2 == 0 {
                        lemma_hex_char_val((bs[(i - 5) / 2] as nat) / 16);
                    } else {
                        lemma_hex_char_val((bs[(i - 5) / 2] as nat) % 16);
                    }
                }
                assert(spec_decode_hex(t, 5, 4) =~= bs) by {
                    assert forall|i: int| 0 <= i < 4 implies spec_decode_hex(t, 5, 4)[i]
                        == bs[i] by {
                        assert(t[5 + 2 * i] == spec_hex_bytes(bs)[2 * i]);
                        assert(t[5 + 2 * i + 1] == spec_hex_bytes(bs)[2 * i + 1]);
                        lemma_hex_char_val((bs[i] as nat) / 16);
                        lemma_hex_char_val((bs[i] as nat) % 16);
                    }
                }
                assert(t.skip(13) =~= rest);
            },
            SegmentV::Tcp { port } => {
                let bs = spec_u16_bytes(port);
                assert(st.len() == 9);
                assert(t.subrange(0, 5)[1] == 't');
                assert(t.subrange(0, 5) =~= tcp_name());
                assert forall|i: int| 5 <= i < 9 implies spec_is_hex(t[i]) by {
                    assert(t[i] == spec_hex_bytes(bs)[i - 5]);
                    if (i - 5) % 2 == 0 {
                        lemma_hex_char_val((bs[(i - 5) / 2] as nat) / 16);
                    } else {
                        lemma_hex_char_val((bs[(i - 5) / 2] as nat) % 16);
                    }
                }
                assert(spec_decode_hex(t, 5, 2) =~= bs) by {
                    assert forall|i: int| 0 <= i < 2 implies spec_decode_hex(t, 5, 2)[i]
                        == bs[i] by {
                        assert(t[5 + 2 * i] == spec_hex_bytes(bs)[2 * i]);
                        assert(t[5 + 2 * i + 1] == spec_hex_bytes(bs)[2 * i + 1]);
                        lemma_hex_char_val((bs[i] as nat) / 16);
                        lemma_hex_char_val((bs[i] as nat) % 16);
                    }
                }
                assert((bs[0] as nat * 256 + bs[1] as nat) as u16 == port);
                assert(t.skip(9) =~= rest);
            },
            SegmentV::Udp { port } => {
                let bs = spec_u16_bytes(port);
                assert(st.len() == 9);
                assert(t.subrange(0, 5)[1] == 'u');
                assert(t.subrange(0, 5) =~= udp_name());
                assert forall|i: int| 5 <= i < 9 implies spec_is_hex(t[i]) by {
                    assert(t[i] == spec_hex_bytes(bs)[i - 5]);
                    if (i - 5) % 2 == 0 {
                        lemma_hex_char_val((bs[(i - 5) / 2] as nat) / 16);
                    } else {
                        lemma_hex_char_val((bs[(i - 5) / 2] as nat) % 16);
                    }
                }
                assert(spec_decode_hex(t, 5, 2) =~= bs) by {
                    assert forall|i: int| 0 <= i < 2 implies spec_decode_hex(t, 5, 2)[i]
                        == bs[i] by {
                        assert(t[5 + 2 * i] == spec_hex_bytes(bs)[2 * i]);
                        assert(t[5 + 2 * i + 1] == spec_hex_bytes(bs)[2 * i + 1]);
                        lemma_hex_char_val((bs[i] as nat) / 16);
                        lemma_hex_char_val((bs[i] as nat) % 16);
                    }
                }
                assert((bs[0] as nat * 256 + bs[1] as nat) as u16 == port);
                assert(t.skip(9) =~= rest);
            },
            SegmentV::QuicV1 => {
                assert(st.len() == 8);
                assert(t.subrange(0, 5)[1] == 'q');
                assert(t.subrange(0, 8) =~= quic_name());
                assert(t.skip(8) =~= rest);
            },
            SegmentV::P2pCircuit => {
                assert(st.len() == 12);
                assert(t.subrange(0, 5)[1] == 'p');
                assert(t.subrange(0, 5)[4] == '-');
                assert(t.subrange(0, 12) =~= circuit_name());
                if t.len() >= 8 {
                    assert(t.subrange(0, 8)[1] == 'p');
                }
                assert(t.skip(12) =~= rest);
            },
            SegmentV::P2p { peer } => {
                assert(1 <= spec_p2p_peer(a.first()).len() < 256);
                let cbs = seq![peer.len() as u8] + peer;
                assert(st.len() == 5 + 2 * cbs.len());
                assert(t.subrange(0, 5)[1] == 'p');
                assert(t.subrange(0, 5)[4] == '/');
                assert(t.subrange(0, 5) =~= p2p_name());
                if t.len() >= 8 {
                    assert(t.subrange(0, 8)[1] == 'p');
                }
                if t.len() >= 12 {
                    assert(t.subrange(0, 12)[4] == '/');
                }
                assert forall|i: int| 5 <= i < 5 + 2 * cbs.len() implies spec_is_hex(t[i]) by {
                    assert(t[i] == spec_hex_bytes(cbs)[i - 5]);
                    if (i - 5) % 2 == 0 {
                        lemma_hex_char_val((cbs[(i - 5) / 2] as nat) / 16);
                    } else {
                        lemma_hex_char_val((cbs[(i - 5) / 2] as nat) % 16);
                    }
                }
                let count = spec_hex_val(t[5]) * 16 + spec_hex_val(t[6]);
                assert(count == peer.len()) by {
                    assert(t[5] == spec_hex_bytes(cbs)[0]);
                    assert(t[6] == spec_hex_bytes(cbs)[1]);
                    assert(cbs[0] == peer.len() as u8);
                    lemma_hex_char_val((cbs[0] as nat) / 16);
                    lemma_hex_char_val((cbs[0] as nat) % 16);
                }
                assert(t.len() >= 7 + 2 * count);
                assert(spec_decode_hex(t, 7, count as nat) =~= peer) by {
                    assert forall|i: int| 0 <= i < count implies spec_decode_hex(
                        t,
                        7,
                        count as nat,
                    )[i] == peer[i] by {
                        assert(t[7 + 2 * i] == spec_hex_bytes(cbs)[2 + 2 * i]);
                        assert(t[7 + 2 * i + 1] == spec_hex_bytes(cbs)[2 + 2 * i + 1]);
                        assert((2 + 2 * i) / 2 == 1 + i && (2 + 2 * i) % 2 == 0);
                        assert(cbs[1 + i] == peer[i]);
                        lemma_hex_char_val((peer[i] as nat) / 16);
                        lemma_hex_char_val((peer[i] as nat) % 16);
                    }
                }
                assert(t.skip(7 + 2 * count as int) =~= rest);
            },
        }
    }
}

/// The lowercase hexadecimal digit of a value below sixteen.
fn hex_char_of(d: u8) -> (c: char)
    requires
        d < 16,
    ensures
        c == spec_hex_char(d as nat),
{
    match d {
        0 => '0',
        1 => '1',
        2 => '2',
        3 => '3',
        4 => '4',
        5 => '5',
        6 => '6',
        7 => '7',
        8 => '8',
        9 => '9',
        10 => 'a',
        11 => 'b',
        12 => 'c',
        13 => 'd',
        14 => 'e',
        _ => 'f',
    }
}

/// The value of a hexadecimal digit; sixteen for any other character.
fn hex_val_of(c: char) -> (r: u8)
    ensures
        r as nat == spec_hex_val(c),
{
    match c {
        '0' => 0,
        '1' => 1,
        '2' => 2,
        '3' => 3,
        '4' => 4,
        '5' => 5,
        '6' => 6,
        '7' => 7,
        '8' => 8,
        '9' => 9,
        'a' => 10,
        'b' => 11,
        'c' => 12,
        'd' => 13,
        'e' => 14,
        'f' => 15,
        _ => 16,
    }
}

/// Appends the hexadecimal text of a byte string.
fn push_hex(s: &mut String, bytes: &Vec<u8>)
    ensures
        final(s)@ == old(s)@ + spec_hex_bytes(bytes@),
{
    let n = bytes.len();
    let mut i: usize = 0;
    while i < n
        invariant
            i <= n,
            n == bytes@.len(),
            s@ == old(s)@ + spec_hex_bytes(bytes@.take(i as int)),
        decreases n - i,
    {
        let b = bytes[i];
        s.push(hex_char_of(b / 16));
        s.push(hex_char_of(b % 16));
        proof {
            assert(s@ =~= old(s)@ + spec_hex_bytes(bytes@.take(i + 1int)));
        }
        i = i + 1;
    }
    proof {
        assert(bytes@.take(n as int) =~= bytes@);
    }
}

/// Appends the canonical text of one segment.
#[verifier::rlimit(60)]
fn push_segment(s: &mut String, seg: &Segment)
    requires
        seg@ is P2p ==> 1 <= spec_p2p_peer(seg@).len() < 256,
    ensures
        final(s)@ == old(s)@ + spec_render_segment(seg@),
{
    match seg {
        Segment::Ip4 { a, b, c, d } => {
            s.push('/');
            s.push('i');
            s.push('p');
            s.push('4');
            s.push('/');
            let bytes: Vec<u8> = vec![*a, *b, *c, *d];
            push_hex(s, &bytes);
            proof {
                assert(final(s)@ =~= old(s)@ + spec_render_segment(seg@));
            }
        },
        Segment::Tcp { port } => {
            s.push('/');
            s.push('t');
            s.push('c');
            s.push('p');
            s.push('/');
            let bytes: Vec<u8> = vec![(*port / 256) as u8, (*port % 256) as u8];
            push_hex(s, &bytes);
            proof {
                assert(bytes@ =~= spec_u16_bytes(seg@->Tcp_port));
                assert(final(s)@ =~= old(s)@ + spec_render_segment(seg@));
            }
        },
        Segment::Udp { port } => {
            s.push('/');
            s.push('u');
            s.push('d');
            s.push('p');
            s.push('/');
            let bytes: Vec<u8> = vec![(*port / 256) as u8, (*port % 256) as u8];
            push_hex(s, &bytes);
            proof {
                assert(bytes@ =~= spec_u16_bytes(seg@->Udp_port));
                assert(final(s)@ =~= old(s)@ + spec_render_segment(seg@));
            }
        },
        Segment::QuicV1 => {
            s.push('/');
            s.push('q');
            s.push('u');
            s.push('i');
            s.push('c');
            s.push('-');
            s.push('v');
            s.push('1');
            proof {
                assert(final(s)@ =~= old(s)@ + spec_render_segment(seg@));
            }
        },
        Segment::P2pCircuit => {
            s.push('/');
            s.push('p');
            s.push('2');
            s.push('p');
            s.push('-');
            s.push('c');
            s.push('i');
            s.push('r');
            s.push('c');
            s.push('u');
            s.push('i');
            s.push('t');
            proof {
                assert(final(s)@ =~= old(s)@ + spec_render_segment(seg@));
            }
        },
        Segment::P2p { peer } => {
            s.push('/');
            s.push('p');
            s.push('2');
            s.push('p');
            s.push('/');
            let pb = peer.as_bytes();
            let m = pb.len();
            let mut bytes: Vec<u8> = Vec::new();
            bytes.push(m as u8);
            let mut j: usize = 0;
            while j < m
                invariant
                    j <= m,
                    m == pb@.len(),
                    bytes@ == seq![(m as u8)] + pb@.take(j as int),
                decreases m - j,
            {
                bytes.push(pb[j]);
                proof {
                    assert(bytes@ =~= seq![(m as u8)] + pb@.take(j + 1int));
                }
                j = j + 1;
            }
            proof {
                assert(pb@.take(m as int) =~= pb@);
                assert(bytes@ =~= seq![peer@.len() as u8] + peer@);
            }
            push_hex(s, &bytes);
            proof {
                assert(final(s)@ =~= old(s)@ + spec_render_segment(seg@));
            }
        },
    }
}

/// Renders an address into its canonical text.
pub fn render_text(addr: &NetworkAddress) -> (r: String)
    requires
        spec_renderable(addr@),
    ensures
        r@ == spec_render(addr@),
{
    let n = addr.segment_count();
    let mut s = String::new();
    let mut i: usize = 0;
    while i < n
        invariant
            i <= n,
            n == addr@.len(),
            spec_renderable(addr@),
            s@ == spec_render(addr@.take(i as int)),
        decreases n - i,
    {
        push_segment(&mut s, addr.segment_at(i));
        proof {
            lemma_render_snoc(addr@.take(i as int), addr@[i as int]);
            assert(addr@.take(i + 1int) =~= addr@.take(i as int).push(addr@[i as int]));
        }
        i = i + 1;
    }
    proof {
        assert(addr@.take(n as int) =~= addr@);
    }
    s
}

/// Reads one hex-encoded byte; nothing when either character is no digit.
fn read_hex_byte(t: &str, pos: usize) -> (r: Option<u8>)
    requires
        pos + 2 <= t@.len(),
        t@.len() <= usize::MAX,
    ensures
        match r {
            Some(b) => spec_is_hex(t@[pos as int]) && spec_is_hex(t@[pos as int + 1]) && b as nat
                == spec_hex_val(t@[pos as int]) * 16 + spec_hex_val(t@[pos as int + 1]),
            None => !(spec_is_hex(t@[pos as int]) && spec_is_hex(t@[pos as int + 1])),
        },
{
    let hi = hex_val_of(t.get_char(pos));
    let lo = hex_val_of(t.get_char(pos + 1));
    if hi < 16 && lo < 16 {
        Some(hi * 16 + lo)
    } else {
        None
    }
}

/// Reads a run of hex-encoded bytes of a known count.
fn read_hex_bytes(t: &str, pos: usize, count: usize) -> (r: Option<Vec<u8>>)
    requires
        pos + 2 * count <= t@.len(),
        t@.len() <= usize::MAX,
    ensures
        match r {
            Some(bs) => spec_all_hex(t@, pos as int, pos as int + 2 * count) && bs@
                == spec_decode_hex(t@, pos as int, count as nat),
            None => !spec_all_hex(t@, pos as int, pos as int + 2 * count),
        },
{
    let mut bs: Vec<u8> = Vec::new();
    let mut i: usize = 0;
    while i < count
        invariant
            i <= count,
            pos + 2 * count <= t@.len(),
            t@.len() <= usize::MAX,
            bs@.len() == i,
            forall|k: int|
                pos <= k < pos + 2 * i ==> spec_is_hex(t@[k]),
            forall|k: int|
                0 <= k < i ==> bs@[k] as nat == spec_hex_val(t@[pos + 2 * k]) * 16 + spec_hex_val(
                    t@[pos + 2 * k + 1],
                ),
        decreases count - i,
    {
        match read_hex_byte(t, pos + 2 * i) {
            Some(b) => {
                bs.push(b);
            },
            None => {
                return None;
            },
        }
        i = i + 1;
    }
    proof {
        assert(bs@ =~= spec_decode_hex(t@, pos as int, count as nat));
    }
    Some(bs)
}

/// Parses canonical text back into an address; anything that is not the
/// canonical rendering of some address yields nothing.
#[verifier::rlimit(100)]
#[verifier::spinoff_prover]
pub fn parse_text(t: &str) -> (r: Option<NetworkAddress>)
    ensures
        match r {
            Some(addr) => spec_parse(t@) == Some(addr@),
            None => spec_parse(t@) is None,
        },
{
    let n = t.unicode_len();
    let mut segs: Vec<Segment> = Vec::new();
    let mut pos: usize = 0;
    proof {
        assert(t@.skip(0int) =~= t@);
        match spec_parse(t@) {
            Some(rest) => {
                assert(segs@.map_values(|g: Segment| g@) + rest =~= rest);
            },
            None => {},
        }
    }
    while pos < n
        invariant
            pos <= n,
            n == t@.len(),
            spec_parse(t@) == (match spec_parse(t@.skip(pos as int)) {
                Some(rest) => Some(segs@.map_values(|g: Segment| g@) + rest),
                None => None::<Seq<SegmentV>>,
            }),
        decreases n - pos,
    {
        let ghost u = t@.skip(pos as int);
        let ghost oldsegs = segs@.map_values(|g: Segment| g@);
        let rem = n - pos;
        proof {
            assert(u.len() == rem);
            assert(forall|k: int| 0 <= k < u.len() ==> u[k] == t@[pos + k]);
            if 5 <= rem {
                assert(forall|k: int| 0 <= k < 5 ==> u.subrange(0, 5)[k] == t@[pos + k]);
            }
            if 8 <= rem {
                assert(forall|k: int| 0 <= k < 8 ==> u.subrange(0, 8)[k] == t@[pos + k]);
            }
            if 12 <= rem {
                assert(forall|k: int| 0 <= k < 12 ==> u.subrange(0, 12)[k] == t@[pos + k]);
            }
        }
        let c0 = t.get_char(pos);
        if rem >= 13 && c0 == '/' && t.get_char(pos + 1) == 'i' && t.get_char(pos + 2) == 'p'
            && t.get_char(pos + 3) == '4' && t.get_char(pos + 4) == '/' {
            proof {
                assert(u.subrange(0, 5) =~= ip4_name());
            }
            match read_hex_bytes(t, pos + 5, 4) {
                Some(bs) => {
                    segs.push(Segment::Ip4 { a: bs[0], b: bs[1], c: bs[2], d: bs[3] });
                    proof {
                        assert(spec_all_hex(u, 5, 13));
                        assert(spec_decode_hex(u, 5, 4) =~= bs@);
                        assert(u.skip(13) =~= t@.skip(pos + 13int));
                        assert(segs@.map_values(|g: Segment| g@) =~= oldsegs + seq![
                            SegmentV::Ip4 { a: bs@[0], b: bs@[1], c: bs@[2], d: bs@[3] },
                        ]);
                        assert(forall|rest: Seq<SegmentV>|
                            oldsegs + (seq![
                                SegmentV::Ip4 { a: bs@[0], b: bs@[1], c: bs@[2], d: bs@[3] },
                            ] + rest) =~= (oldsegs + seq![
                                SegmentV::Ip4 { a: bs@[0], b: bs@[1], c: bs@[2], d: bs@[3] },
                            ]) + rest);
                    }
                    pos = pos + 13;
                },
                None => {
                    return None;
                },
            }
        } else if rem >= 9 && c0 == '/' && t.get_char(pos + 1) == 't' && t.get_char(pos + 2)
            == 'c' && t.get_char(pos + 3) == 'p' && t.get_char(pos + 4) == '/' {
            proof {
                assert(u.subrange(0, 5) =~= tcp_name());
            }
            match read_hex_bytes(t, pos + 5, 2) {
                Some(bs) => {
                    let port = (bs[0] as u16) * 256 + (bs[1] as u16);
                    segs.push(Segment::Tcp { port });
                    proof {
                        assert(spec_all_hex(u, 5, 9));
                        assert(spec_decode_hex(u, 5, 2) =~= bs@);
                        assert(u.skip(9) =~= t@.skip(pos + 9int));
                        assert(segs@.map_values(|g: Segment| g@) =~= oldsegs + seq![
                            SegmentV::Tcp { port },
                        ]);
                        assert(forall|rest: Seq<SegmentV>|
                            oldsegs + (seq![SegmentV::Tcp { port }] + rest) =~= (oldsegs + seq![
                                SegmentV::Tcp { port },
                            ]) + rest);
                    }
                    pos = pos + 9;
                },
                None => {
                    return None;
                },
            }
        } else if rem >= 9 && c0 == '/' && t.get_char(pos + 1) == 'u' && t.get_char(pos + 2)
            == 'd' && t.get_char(pos + 3) == 'p' && t.get_char(pos + 4) == '/' {
            proof {
                assert(u.subrange(0, 5) =~= udp_name());
            }
            match read_hex_bytes(t, pos + 5, 2) {
                Some(bs) => {
                    let port = (bs[0] as u16) * 256 + (bs[1] as u16);
                    segs.push(Segment::Udp { port });
                    proof {
                        assert(spec_all_hex(u, 5, 9));
                        assert(spec_decode_hex(u, 5, 2) =~= bs@);
                        assert(u.skip(9) =~= t@.skip(pos + 9int));
                        assert(segs@.map_values(|g: Segment| g@) =~= oldsegs + seq![
                            SegmentV::Udp { port },
                        ]);
                        assert(forall|rest: Seq<SegmentV>|
                            oldsegs + (seq![SegmentV::Udp { port }] + rest) =~= (oldsegs + seq![
                                SegmentV::Udp { port },
                            ]) + rest);
                    }
                    pos = pos + 9;
                },
                None => {
                    return None;
                },
            }
        } else if rem >= 8 && c0 == '/' && t.get_char(pos + 1) == 'q' && t.get_char(pos + 2)
            == 'u' && t.get_char(pos + 3) == 'i' && t.get_char(pos + 4) == 'c' && t.get_char(
            pos + 5,
        ) == '-' && t.get_char(pos + 6) == 'v' && t.get_char(pos + 7) == '1' {
            segs.push(Segment::QuicV1);
            proof {
                assert(u.subrange(0, 8) =~= quic_name());
                assert(u.skip(8) =~= t@.skip(pos + 8int));
                assert(segs@.map_values(|g: Segment| g@) =~= oldsegs + seq![SegmentV::QuicV1]);
                assert(forall|rest: Seq<SegmentV>|
                    oldsegs + (seq![SegmentV::QuicV1] + rest) =~= (oldsegs + seq![
                        SegmentV::QuicV1,
                    ]) + rest);
            }
            pos = pos + 8;
        } else if rem >= 12 && c0 == '/' && t.get_char(pos + 1) == 'p' && t.get_char(pos + 2)
            == '2' && t.get_char(pos + 3) == 'p' && t.get_char(pos + 4) == '-' && t.get_char(
            pos + 5,
        ) == 'c' && t.get_char(pos + 6) == 'i' && t.get_char(pos + 7) == 'r' && t.get_char(
            pos + 8,
        ) == 'c' && t.get_char(pos + 9) == 'u' && t.get_char(pos + 10) == 'i' && t.get_char(
            pos + 11,
        ) == 't' {
            segs.push(Segment::P2pCircuit);
            proof {
                assert(u.subrange(0, 12) =~= circuit_name());
                assert(u.skip(12) =~= t@.skip(pos + 12int));
                assert(segs@.map_values(|g: Segment| g@) =~= oldsegs + seq![SegmentV::P2pCircuit]);
                assert(forall|rest: Seq<SegmentV>|
                    oldsegs + (seq![SegmentV::P2pCircuit] + rest) =~= (oldsegs + seq![
                        SegmentV::P2pCircuit,
                    ]) + rest);
            }
            pos = pos + 12;
        } else if rem >= 7 && c0 == '/' && t.get_char(pos + 1) == 'p' && t.get_char(pos + 2)
            == '2' && t.get_char(pos + 3) == 'p' && t.get_char(pos + 4) == '/' {
            proof {
                assert(u.subrange(0, 5) =~= p2p_name());
            }
            let count = match read_hex_byte(t, pos + 5) {
                Some(b) => b,
                None => {
                    return None;
                },
            };
            if count < 1 || rem < 7 + 2 * (count as usize) {
                return None;
            }
            match read_hex_bytes(t, pos + 7, count as usize) {
                Some(bs) => {
                    let ghost bsv = bs@;
                    let peer = match PeerIdentity::new(bs) {
                        Some(p) => p,
                        None => {
                            proof {
                                assert(bsv.len() == count as nat);
                                assert(false);
                            }
                            return None;
                        },
                    };
                    let ghost peerv = peer@;
                    segs.push(Segment::P2p { peer });
                    proof {
                        let cnt = spec_hex_val(u[5]) * 16 + spec_hex_val(u[6]);
                        assert(cnt == count as nat);
                        assert(spec_all_hex(u, 7, 7 + 2 * cnt as int));
                        assert(spec_decode_hex(u, 7, cnt) =~= peerv);
                        assert(u.skip(7 + 2 * cnt as int) =~= t@.skip(
                            pos + 7 + 2 * (count as int),
                        ));
                        assert(segs@.map_values(|g: Segment| g@) =~= oldsegs + seq![
                            SegmentV::P2p { peer: peerv },
                        ]);
                        assert(forall|rest: Seq<SegmentV>|
                            oldsegs + (seq![SegmentV::P2p { peer: peerv }] + rest) =~= (oldsegs
                                + seq![SegmentV::P2p { peer: peerv }]) + rest);
                    }
                    pos = pos + 7 + 2 * (count as usize);
                },
                None => {
                    proof {
                        let cnt = spec_hex_val(u[5]) * 16 + spec_hex_val(u[6]);
                        assert(cnt == count as nat);
                        if spec_all_hex(u, 7, 7 + 2 * cnt as int) {
                            assert forall|k: int|
                                pos + 7 <= k < pos + 7 + 2 * (count as int) implies spec_is_hex(
                                t@[k],
                            ) by {
                                assert(u[k - pos] == t@[k]);
                                assert(spec_is_hex(u[k - pos]));
                            }
                            assert(false);
                        }
                    }
                    return None;
                },
            }
        } else {
            return None;
        }
    }
    proof {
        assert(t@.skip(n as int) =~= Seq::<char>::empty());
        assert(segs@.map_values(|g: Segment| g@) + Seq::<SegmentV>::empty() =~= segs@.map_values(
            |g: Segment| g@,
        ));
    }
    Some(NetworkAddress::from_segments(segs))
}

/// Rendering a grown address appends the new segment's text.
pub proof fn lemma_render_snoc(x: Seq<SegmentV>, e: SegmentV)
    ensures
        spec_render(x.push(e)) == spec_render(x) + spec_render_segment(e),
    decreases x.len(),
{
    if x.len() == 0 {
        assert(x.push(e).first() == e);
        assert(x.push(e).drop_first() =~= Seq::<SegmentV>::empty());
        assert(spec_render(x.push(e)) == spec_render_segment(e) + spec_render(
            Seq::<SegmentV>::empty(),
        ));
        assert(spec_render(Seq::<SegmentV>::empty()) == Seq::<char>::empty());
        assert(spec_render_segment(e) + Seq::<char>::empty() =~= spec_render_segment(e));
        assert(spec_render(x) == Seq::<char>::empty());
        assert(Seq::<char>::empty() + spec_render_segment(e) =~= spec_render_segment(e));
    } else {
        assert(x.push(e).first() == x.first());
        assert(x.push(e).drop_first() =~= x.drop_first().push(e));
        assert(spec_render(x.push(e)) == spec_render_segment(x.first()) + spec_render(
            x.drop_first().push(e),
        ));
        lemma_render_snoc(x.drop_first(), e);
        assert(spec_render(x) == spec_render_segment(x.first()) + spec_render(x.drop_first()));
        assert(spec_render_segment(x.first()) + (spec_render(x.drop_first())
            + spec_render_segment(e)) =~= (spec_render_segment(x.first()) + spec_render(
            x.drop_first(),
        )) + spec_render_segment(e));
    }
}

} // verus!

//! Server-assisted IP discovery: the 74-byte probe sent over the voice
//! UDP socket and the parser for the 74-byte reply carrying the
//! externally visible address and port.

use vstd::prelude::*;

use crate::bytes::{push_u16_be, push_u32_be, spec_u16_be, spec_u16_from_be, spec_u32_be,
    u16_from_be_bytes};

verus! {

/// Total size of both the discovery probe and its reply.
pub const DISCOVERY_PACKET_SIZE: usize = 74;

/// Value of the probe's length field: the packet size minus the 4-byte header.
pub const DISCOVERY_BODY_LEN: u16 = 70;

/// The bytes of the discovery probe for a given SSRC: type 1 and length 70
/// big-endian, the SSRC big-endian, then zero padding up to 74 bytes.
pub open spec fn spec_discovery_probe(ssrc: u32) -> Seq<u8> {
    spec_u16_be(1) + spec_u16_be(70) + spec_u32_be(ssrc) + Seq::new(66, |i: int| 0u8)
}

/// Builds the 74-byte IP-discovery probe for `ssrc`.
pub fn build_discovery_probe(ssrc: u32) -> (p: Vec<u8>)
    ensures
        p@ == spec_discovery_probe(ssrc),
        p@.len() == DISCOVERY_PACKET_SIZE,
{
    let mut p: Vec<u8> = Vec::new();
    push_u16_be(&mut p, 1);
    push_u16_be(&mut p, DISCOVERY_BODY_LEN);
    push_u32_be(&mut p, ssrc);
    let mut i: usize = 0;
    while i < 66
        invariant
            p@ == spec_u16_be(1) + spec_u16_be(70) + spec_u32_be(ssrc) + Seq::new(
                i as nat,
                |j: int| 0u8,
            ),
            i <= 66,
        decreases 66 - i,
    {
        p.push(0);
        assert(p@ =~= spec_u16_be(1) + spec_u16_be(70) + spec_u32_be(ssrc) + Seq::new(
            (i + 1) as nat,
            |j: int| 0u8,
        ));
        i = i + 1;
    }
    assert(p@ =~= spec_discovery_probe(ssrc));
    p
}

/// Index of the first zero byte in the reply's address field `[8, 72)`,
/// or 72 when none of those bytes is zero.
pub open spec fn spec_addr_end(b: Seq<u8>, i: int) -> int
    decreases 72 - i,
{
    if i >= 72 {
        72
    } else if b[i] == 0 {
        i
    } else {
        spec_addr_end(b, i + 1)
    }
}

/// The address carried by a discovery reply: the bytes from offset 8 up to
/// the first zero byte (at most 64 bytes).
pub open spec fn spec_discovered_addr(b: Seq<u8>) -> Seq<u8> {
    b.subrange(8, spec_addr_end(b, 8))
}

/// The port carried by a discovery reply, big-endian at offset 72.
pub open spec fn spec_discovered_port(b: Seq<u8>) -> u16 {
    spec_u16_from_be(b[72], b[73])
}

/// Whether the reply's address bytes are all ASCII, as the wire format
/// promises.
pub open spec fn spec_addr_ascii(b: Seq<u8>) -> bool {
    forall|i: int| 0 <= i < spec_discovered_addr(b).len() ==> #[trigger] spec_discovered_addr(
        b,
    )[i] < 128
}

proof fn lemma_addr_end_bounds(b: Seq<u8>, i: int)
    requires
        8 <= i <= 72,
    ensures
        i <= spec_addr_end(b, i) <= 72,
    decreases 72 - i,
{
    if i < 72 && b[i] != 0 {
        lemma_addr_end_bounds(b, i + 1);
    }
}

/// Parses a discovery reply. A buffer under 74 bytes is an error, and so
/// is a non-ASCII byte in the address; otherwise the zero-terminated
/// address bytes and the port come back.
pub fn parse_discovery_reply(buf: &[u8]) -> (r: Result<(Vec<u8>, u16), DiscoveryError>)
    ensures
        buf@.len() < 74 ==> r == Result::<(Vec<u8>, u16), DiscoveryError>::Err(
            DiscoveryError::ReplyTooShort,
        ),
        buf@.len() >= 74 && !spec_addr_ascii(buf@) ==> r == Result::<
            (Vec<u8>, u16),
            DiscoveryError,
        >::Err(DiscoveryError::AddressNotAscii),
        buf@.len() >= 74 && spec_addr_ascii(buf@) ==> (r matches Ok(p) && p.0@
            == spec_discovered_addr(buf@) && p.1 == spec_discovered_port(buf@)),
{
    if buf.len() < 74 {
        return Err(DiscoveryError::ReplyTooShort);
    }
    proof {
        lemma_addr_end_bounds(buf@, 8);
    }
    let ghost end = spec_addr_end(buf@, 8);
    let mut addr: Vec<u8> = Vec::new();
    let mut i: usize = 8;
    while i < 72 && buf[i] != 0
        invariant
            buf@.len() >= 74,
            8 <= i <= 72,
            end == spec_addr_end(buf@, 8),
            end == spec_addr_end(buf@, i as int),
            forall|j: int| 8 <= j < i ==> buf@[j] != 0 && buf@[j] < 128,
            addr@ == buf@.subrange(8, i as int),
        decreases 72 - i,
    {
        if buf[i] >= 128 {
            proof {
                lemma_addr_end_bounds(buf@, i + 1);
                assert(spec_addr_end(buf@, i as int) == spec_addr_end(buf@, i + 1));
                assert(i < end);
                assert(spec_discovered_addr(buf@)[i - 8] == buf@[i as int]);
            }
            return Err(DiscoveryError::AddressNotAscii);
        }
        addr.push(buf[i]);
        assert(addr@ =~= buf@.subrange(8, i + 1));
        i = i + 1;
    }
    assert(spec_addr_end(buf@, i as int) == i);
    proof {
        assert forall|j: int| 0 <= j < spec_discovered_addr(buf@).len()
            implies #[trigger] spec_discovered_addr(buf@)[j] < 128 by {
            assert(spec_discovered_addr(buf@)[j] == buf@[8 + j]);
        }
    }
    let tail: &[u8] = &buf[72..74];
    let port = u16_from_be_bytes(tail);
    Ok((addr, port))
}

/// Errors of reply parsing.
#[derive(Debug, Clone, Copy, PartialEq, Eq, Structural)]
pub enum DiscoveryError {
    /// The reply held fewer than 74 bytes.
    ReplyTooShort,
    /// The address field held a byte outside ASCII.
    AddressNotAscii,
}

/// A well-formed reply as the server builds it: any 8 leading bytes, the
/// address bytes, zero padding up to offset 72, then the port big-endian.
pub open spec fn spec_discovery_reply(head: Seq<u8>, addr: Seq<u8>, port: u16) -> Seq<u8> {
    head + addr + Seq::new((64 - addr.len()) as nat, |i: int| 0u8) + spec_u16_be(port)
}

proof fn lemma_addr_end_of_reply(b: Seq<u8>, addr: Seq<u8>, i: int)
    requires
        b.len() == 74,
        8 <= i <= 8 + addr.len(),
        addr.len() <= 64,
        forall|j: int| 0 <= j < addr.len() ==> #[trigger] addr[j] != 0 && b[8 + j] == addr[j],
        forall|j: int| 8 + addr.len() <= j < 72 ==> b[j] == 0,
    ensures
        spec_addr_end(b, i) == 8 + addr.len(),
    decreases 74 - i,
{
    if i < 8 + addr.len() {
        assert(b[i] == addr[i - 8]);
        lemma_addr_end_of_reply(b, addr, i + 1);
    } else if i < 72 {
        assert(b[i] == 0);
    }
}

/// Round trip of IP discovery: parsing a well-formed 74-byte reply yields
/// exactly the address bytes (the non-zero prefix of bytes 8..72) and the
/// port that the reply was built from.
pub proof fn lemma_discovery_reply_round_trip(head: Seq<u8>, addr: Seq<u8>, port: u16)
    requires
        head.len() == 8,
        addr.len() <= 64,
        forall|i: int| 0 <= i < addr.len() ==> #[trigger] addr[i] != 0,
    ensures
        spec_discovered_addr(spec_discovery_reply(head, addr, port)) == addr,
        spec_discovered_port(spec_discovery_reply(head, addr, port)) == port,
{
    let b = spec_discovery_reply(head, addr, port);
    assert(b.len() == 74);
    lemma_addr_end_of_reply(b, addr, 8);
    assert(b.subrange(8, 8 + addr.len() as int) =~= addr);
    assert(b[72] == spec_u16_be(port)[0]);
    assert(b[73] == spec_u16_be(port)[1]);
}

} // verus!

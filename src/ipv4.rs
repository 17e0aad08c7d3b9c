//! IPv4 headers.

use vstd::prelude::*;
use crate::ip::{protocol_at, two_nibbles, IPProtocol};
use crate::wire::{be16, consumes, incomplete, read_be16, read_u8, rest_after, ParseError};

verus! {

/// Length in bytes of the part of an IPv4 header that is decoded: the header
/// without options.
pub const IPV4_HEADER_LEN: usize = 20;

/// An IPv4 address, as its four bytes in network order.
#[derive(Clone, Copy, Debug, PartialEq, Eq, Hash)]
pub struct Ipv4Addr(pub [u8; 4]);

impl Ipv4Addr {
    /// The address `a.b.c.d`.
    pub fn new(a: u8, b: u8, c: u8, d: u8) -> (r: Ipv4Addr)
        ensures
            r.0@ == seq![a, b, c, d],
    {
        let r = Ipv4Addr([a, b, c, d]);
        assert(r.0@ =~= seq![a, b, c, d]);
        r
    }

    /// The four bytes of the address.
    pub fn octets(&self) -> (r: [u8; 4])
        ensures
            r == self.0,
    {
        self.0
    }
}

#[derive(Clone, Copy, Debug, PartialEq, Eq)]
pub struct IPv4Header {
    pub version: u8,
    /// Header length in 32-bit words, as found on the wire.
    pub ihl: u8,
    pub tos: u8,
    pub length: u16,
    pub id: u16,
    pub flags: u8,
    pub fragment_offset: u16,
    pub ttl: u8,
    pub protocol: IPProtocol,
    /// The header checksum as found on the wire; it is not checked.
    pub chksum: u16,
    pub source_addr: Ipv4Addr,
    pub dest_addr: Ipv4Addr,
}

/// `h` holds the fields of the IPv4 header at the start of `s`: the version
/// and IHL nibbles, then whole bytes and big-endian words, with the 16-bit
/// word at offset 6 split into 3 bits of flags and 13 bits of fragment offset.
pub open spec fn ipv4_header_of(h: IPv4Header, s: Seq<u8>) -> bool {
    &&& h.version == s[0] / 16
    &&& h.ihl == s[0] % 16
    &&& h.tos == s[1]
    &&& h.length == be16(s, 2)
    &&& h.id == be16(s, 4)
    &&& h.flags == be16(s, 6) / 8192
    &&& h.fragment_offset == be16(s, 6) % 8192
    &&& h.ttl == s[8]
    &&& h.protocol == IPProtocol::from_code(s[9])
    &&& h.chksum == be16(s, 10)
    &&& h.source_addr.0@ == s.subrange(12, 16)
    &&& h.dest_addr.0@ == s.subrange(16, 20)
}

/// The 3 high bits and the 13 low bits of `w`.
fn flag_frag_offset(w: u16) -> (r: (u8, u16))
    ensures
        r.0 == w / 8192,
        r.1 == w % 8192,
{
    assert(w >> 13 == w / 8192 && w & 0x1fff == w % 8192) by (bit_vector);
    ((w >> 13) as u8, w & 0x1fff)
}

/// The address held by the four bytes at `at`.
pub(crate) fn address(input: &[u8], at: usize) -> (r: Ipv4Addr)
    requires
        at + 4 <= input.len(),
    ensures
        r.0@ == input@.subrange(at as int, at + 4),
{
    let r = Ipv4Addr([input[at], input[at + 1], input[at + 2], input[at + 3]]);
    assert(r.0@ =~= input@.subrange(at as int, at + 4));
    r
}

/// Decodes the IPv4 header at the start of `input`.
///
/// Exactly 20 bytes are read. Options, present when `ihl` is above 5, are
/// left at the start of the remaining bytes, and the version is reported as
/// found.
pub fn parse_ipv4_header(input: &[u8]) -> (r: Result<(&[u8], IPv4Header), ParseError>)
    ensures
        consumes(r, input@, IPV4_HEADER_LEN as nat),
        r matches Ok((_, h)) ==> ipv4_header_of(h, input@),
{
    if input.len() < IPV4_HEADER_LEN {
        return Err(incomplete(IPV4_HEADER_LEN, input.len()));
    }
    let (version, ihl) = two_nibbles(read_u8(input, 0));
    let (flags, fragment_offset) = flag_frag_offset(read_be16(input, 6));
    let header = IPv4Header {
        version,
        ihl,
        tos: read_u8(input, 1),
        length: read_be16(input, 2),
        id: read_be16(input, 4),
        flags,
        fragment_offset,
        ttl: read_u8(input, 8),
        protocol: protocol_at(input, 9),
        chksum: read_be16(input, 10),
        source_addr: address(input, 12),
        dest_addr: address(input, 16),
    };
    Ok((rest_after(input, IPV4_HEADER_LEN), header))
}

/// Decoding the same bytes twice gives the same header.
pub proof fn ipv4_header_is_determined(a: IPv4Header, b: IPv4Header, s: Seq<u8>)
    requires
        ipv4_header_of(a, s),
        ipv4_header_of(b, s),
    ensures
        a == b,
{
    assert(a.source_addr.0 == b.source_addr.0);
    assert(a.dest_addr.0 == b.dest_addr.0);
}

} // verus!

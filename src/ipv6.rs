//! IPv6 headers.

use vstd::prelude::*;
use crate::ip::{protocol_at, two_nibbles, IPProtocol};
use crate::wire::{be16, be_bytes, consumes, incomplete, read_be16, read_u8, rest_after, ParseError};

verus! {

/// Length in bytes of the fixed IPv6 header.
pub const IPV6_HEADER_LEN: usize = 40;

/// An IPv6 address, as its sixteen bytes in network order.
#[derive(Clone, Copy, Debug, PartialEq, Eq, Hash)]
pub struct Ipv6Addr(pub [u8; 16]);

impl Ipv6Addr {
    /// The address made of the eight 16-bit segments `a:b:c:d:e:f:g:h`.
    pub fn new(a: u16, b: u16, c: u16, d: u16, e: u16, f: u16, g: u16, h: u16) -> (r: Ipv6Addr)
        ensures
            r.0@ == be_bytes(a) + be_bytes(b) + be_bytes(c) + be_bytes(d) + be_bytes(e)
                + be_bytes(f) + be_bytes(g) + be_bytes(h),
    {
        let r = Ipv6Addr(
            [
                (a / 256) as u8,
                (a % 256) as u8,
                (b / 256) as u8,
                (b % 256) as u8,
                (c / 256) as u8,
                (c % 256) as u8,
                (d / 256) as u8,
                (d % 256) as u8,
                (e / 256) as u8,
                (e % 256) as u8,
                (f / 256) as u8,
                (f % 256) as u8,
                (g / 256) as u8,
                (g % 256) as u8,
                (h / 256) as u8,
                (h % 256) as u8,
            ],
        );
        assert(r.0@ =~= be_bytes(a) + be_bytes(b) + be_bytes(c) + be_bytes(d) + be_bytes(e)
            + be_bytes(f) + be_bytes(g) + be_bytes(h));
        r
    }

    /// The sixteen bytes of the address.
    pub fn octets(&self) -> (r: [u8; 16])
        ensures
            r == self.0,
    {
        self.0
    }
}

#[derive(Clone, Copy, Debug, PartialEq, Eq)]
pub struct IPv6Header {
    pub version: u8,
    /// Differentiated services: the high 6 bits of the traffic class.
    pub ds: u8,
    /// Explicit congestion notification: the low 2 bits of the traffic class.
    pub ecn: u8,
    pub flow_label: u32,
    pub length: u16,
    pub next_header: IPProtocol,
    pub hop_limit: u8,
    pub source_addr: Ipv6Addr,
    pub dest_addr: Ipv6Addr,
}

/// The 8-bit traffic class, which follows the 4-bit version.
pub open spec fn traffic_class(s: Seq<u8>) -> int {
    (s[0] % 16) * 16 + s[1] / 16
}

/// `h` holds the fields of the IPv6 header at the start of `s`. The first
/// 32 bits are 4 bits of version, 8 bits of traffic class and 20 bits of
/// flow label.
pub open spec fn ipv6_header_of(h: IPv6Header, s: Seq<u8>) -> bool {
    &&& h.version == s[0] / 16
    &&& h.ds == traffic_class(s) / 4
    &&& h.ecn == traffic_class(s) % 4
    &&& h.flow_label == (s[1] % 16) * 65536 + be16(s, 2)
    &&& h.length == be16(s, 4)
    &&& h.next_header == IPProtocol::from_code(s[6])
    &&& h.hop_limit == s[7]
    &&& h.source_addr.0@ == s.subrange(8, 24)
    &&& h.dest_addr.0@ == s.subrange(24, 40)
}

/// The address held by the sixteen bytes at `at`.
pub(crate) fn address(input: &[u8], at: usize) -> (r: Ipv6Addr)
    requires
        at + 16 <= input.len(),
    ensures
        r.0@ == input@.subrange(at as int, at + 16),
{
    let r = Ipv6Addr(
        [
            input[at],
            input[at + 1],
            input[at + 2],
            input[at + 3],
            input[at + 4],
            input[at + 5],
            input[at + 6],
            input[at + 7],
            input[at + 8],
            input[at + 9],
            input[at + 10],
            input[at + 11],
            input[at + 12],
            input[at + 13],
            input[at + 14],
            input[at + 15],
        ],
    );
    assert(r.0@ =~= input@.subrange(at as int, at + 16));
    r
}

/// Decodes the fixed IPv6 header at the start of `input`.
///
/// The traffic class and flow label cross byte boundaries: they are put
/// together from the nibbles of the first two bytes and the 16 bits after.
pub fn parse_ipv6_header(input: &[u8]) -> (r: Result<(&[u8], IPv6Header), ParseError>)
    ensures
        consumes(r, input@, IPV6_HEADER_LEN as nat),
        r matches Ok((_, h)) ==> ipv6_header_of(h, input@),
{
    if input.len() < IPV6_HEADER_LEN {
        return Err(incomplete(IPV6_HEADER_LEN, input.len()));
    }
    let ver_tc = two_nibbles(read_u8(input, 0));
    let tc_fl = two_nibbles(read_u8(input, 1));
    let fl = read_be16(input, 2);
    let (tc_high, tc_low, fl_high) = (ver_tc.1, tc_fl.0, tc_fl.1);
    assert(tc_high < 16 ==> tc_high << 2 == tc_high * 4) by (bit_vector);
    assert(tc_low < 16 ==> (tc_low & 0b1100) >> 2 == tc_low / 4 && tc_low & 0b11 == tc_low % 4)
        by (bit_vector);
    assert((fl_high as u32) < 16 ==> (fl_high as u32) << 16 == (fl_high as u32) * 65536)
        by (bit_vector);
    let header = IPv6Header {
        version: ver_tc.0,
        ds: (tc_high << 2) + ((tc_low & 0b1100) >> 2),
        ecn: tc_low & 0b11,
        flow_label: ((fl_high as u32) << 16) + fl as u32,
        length: read_be16(input, 4),
        next_header: protocol_at(input, 6),
        hop_limit: read_u8(input, 7),
        source_addr: address(input, 8),
        dest_addr: address(input, 24),
    };
    Ok((rest_after(input, IPV6_HEADER_LEN), header))
}

/// Decoding the same bytes twice gives the same header.
pub proof fn ipv6_header_is_determined(a: IPv6Header, b: IPv6Header, s: Seq<u8>)
    requires
        ipv6_header_of(a, s),
        ipv6_header_of(b, s),
    ensures
        a == b,
{
    assert(a.source_addr.0 == b.source_addr.0);
    assert(a.dest_addr.0 == b.dest_addr.0);
}

} // verus!

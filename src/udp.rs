//! UDP headers.

use vstd::prelude::*;
use crate::wire::{be16, consumes, incomplete, read_be16, rest_after, ParseError};

verus! {

/// Length of a UDP header in bytes.
pub const UDP_HEADER_LEN: usize = 8;

#[derive(Clone, Copy, Debug, PartialEq, Eq)]
pub struct UdpHeader {
    pub source_port: u16,
    pub dest_port: u16,
    pub length: u16,
    pub checksum: u16,
}

/// `h` holds the fields of the UDP header at the start of `s`.
pub open spec fn udp_header_of(h: UdpHeader, s: Seq<u8>) -> bool {
    &&& h.source_port == be16(s, 0)
    &&& h.dest_port == be16(s, 2)
    &&& h.length == be16(s, 4)
    &&& h.checksum == be16(s, 6)
}

/// Decodes the UDP header at the start of `input`.
pub fn parse_udp_header(input: &[u8]) -> (r: Result<(&[u8], UdpHeader), ParseError>)
    ensures
        consumes(r, input@, UDP_HEADER_LEN as nat),
        r matches Ok((_, h)) ==> udp_header_of(h, input@),
{
    if input.len() < UDP_HEADER_LEN {
        return Err(incomplete(UDP_HEADER_LEN, input.len()));
    }
    let header = UdpHeader {
        source_port: read_be16(input, 0),
        dest_port: read_be16(input, 2),
        length: read_be16(input, 4),
        checksum: read_be16(input, 6),
    };
    Ok((rest_after(input, UDP_HEADER_LEN), header))
}

/// Decoding the same bytes twice gives the same header.
pub proof fn udp_header_is_determined(a: UdpHeader, b: UdpHeader, s: Seq<u8>)
    requires
        udp_header_of(a, s),
        udp_header_of(b, s),
    ensures
        a == b,
{
}

} // verus!

//! ARP packets for Ethernet hardware and IPv4 protocol addresses.

use vstd::prelude::*;
use crate::ethernet::{mac_at, MacAddress};
use crate::ipv4::{address, Ipv4Addr};
use crate::wire::{be16, consumes, incomplete, read_be16, read_u8, rest_after, ParseError};

verus! {

/// Length in bytes of an ARP packet with 6-byte hardware and 4-byte protocol
/// addresses.
pub const ARP_PACKET_LEN: usize = 28;

#[derive(Clone, Copy, Debug, PartialEq, Eq)]
pub enum HardwareAddressType {
    Ethernet,
    Other(u16),
}

impl HardwareAddressType {
    /// The hardware type that the code `raw` stands for.
    pub open spec fn from_code(raw: u16) -> HardwareAddressType {
        if raw == 0x0001 {
            HardwareAddressType::Ethernet
        } else {
            HardwareAddressType::Other(raw)
        }
    }
}

impl From<u16> for HardwareAddressType {
    fn from(raw: u16) -> (r: Self) {
        match raw {
            0x0001 => Self::Ethernet,
            other => Self::Other(other),
        }
    }
}

impl vstd::std_specs::convert::FromSpecImpl<u16> for HardwareAddressType {
    open spec fn obeys_from_spec() -> bool {
        true
    }

    open spec fn from_spec(raw: u16) -> HardwareAddressType {
        HardwareAddressType::from_code(raw)
    }
}

#[derive(Clone, Copy, Debug, PartialEq, Eq)]
pub enum ProtocolAddressType {
    IPv4,
    Other(u16),
}

impl ProtocolAddressType {
    /// The protocol type that the code `raw` stands for.
    pub open spec fn from_code(raw: u16) -> ProtocolAddressType {
        if raw == 0x0800 {
            ProtocolAddressType::IPv4
        } else {
            ProtocolAddressType::Other(raw)
        }
    }
}

impl From<u16> for ProtocolAddressType {
    fn from(raw: u16) -> (r: Self) {
        match raw {
            0x0800 => Self::IPv4,
            other => Self::Other(other),
        }
    }
}

impl vstd::std_specs::convert::FromSpecImpl<u16> for ProtocolAddressType {
    open spec fn obeys_from_spec() -> bool {
        true
    }

    open spec fn from_spec(raw: u16) -> ProtocolAddressType {
        ProtocolAddressType::from_code(raw)
    }
}

#[derive(Clone, Copy, Debug, PartialEq, Eq)]
pub enum Operation {
    Request,
    Reply,
    Other(u16),
}

impl Operation {
    /// The operation that the code `raw` stands for.
    pub open spec fn from_code(raw: u16) -> Operation {
        if raw == 0x0001 {
            Operation::Request
        } else if raw == 0x0002 {
            Operation::Reply
        } else {
            Operation::Other(raw)
        }
    }
}

impl From<u16> for Operation {
    fn from(raw: u16) -> (r: Self) {
        match raw {
            0x0001 => Self::Request,
            0x0002 => Self::Reply,
            other => Self::Other(other),
        }
    }
}

impl vstd::std_specs::convert::FromSpecImpl<u16> for Operation {
    open spec fn obeys_from_spec() -> bool {
        true
    }

    open spec fn from_spec(raw: u16) -> Operation {
        Operation::from_code(raw)
    }
}

/// An ARP packet. The address sizes are reported as found; the addresses
/// are always read as a 6-byte MAC and a 4-byte IPv4 address.
#[derive(Clone, Copy, Debug, PartialEq, Eq)]
pub struct ArpPacket {
    pub hw_addr_type: HardwareAddressType,
    pub proto_addr_type: ProtocolAddressType,
    pub hw_addr_size: u8,
    pub proto_addr_size: u8,
    pub operation: Operation,
    pub src_mac: MacAddress,
    pub src_addr: Ipv4Addr,
    pub dest_mac: MacAddress,
    pub dest_addr: Ipv4Addr,
}

/// `p` holds the fields of the ARP packet at the start of `s`.
pub open spec fn arp_packet_of(p: ArpPacket, s: Seq<u8>) -> bool {
    &&& p.hw_addr_type == HardwareAddressType::from_code(be16(s, 0))
    &&& p.proto_addr_type == ProtocolAddressType::from_code(be16(s, 2))
    &&& p.hw_addr_size == s[4]
    &&& p.proto_addr_size == s[5]
    &&& p.operation == Operation::from_code(be16(s, 6))
    &&& p.src_mac.0@ == s.subrange(8, 14)
    &&& p.src_addr.0@ == s.subrange(14, 18)
    &&& p.dest_mac.0@ == s.subrange(18, 24)
    &&& p.dest_addr.0@ == s.subrange(24, 28)
}

/// Decodes the ARP packet at the start of `input`.
///
/// The declared address sizes do not change what is read: this decoder is
/// for Ethernet and IPv4 addresses only.
pub fn parse_arp_pkt(input: &[u8]) -> (r: Result<(&[u8], ArpPacket), ParseError>)
    ensures
        consumes(r, input@, ARP_PACKET_LEN as nat),
        r matches Ok((_, p)) ==> arp_packet_of(p, input@),
{
    if input.len() < ARP_PACKET_LEN {
        return Err(incomplete(ARP_PACKET_LEN, input.len()));
    }
    let packet = ArpPacket {
        hw_addr_type: HardwareAddressType::from(read_be16(input, 0)),
        proto_addr_type: ProtocolAddressType::from(read_be16(input, 2)),
        hw_addr_size: read_u8(input, 4),
        proto_addr_size: read_u8(input, 5),
        operation: Operation::from(read_be16(input, 6)),
        src_mac: mac_at(input, 8),
        src_addr: address(input, 14),
        dest_mac: mac_at(input, 18),
        dest_addr: address(input, 24),
    };
    Ok((rest_after(input, ARP_PACKET_LEN), packet))
}

/// Decoding the same bytes twice gives the same packet.
pub proof fn arp_packet_is_determined(a: ArpPacket, b: ArpPacket, s: Seq<u8>)
    requires
        arp_packet_of(a, s),
        arp_packet_of(b, s),
    ensures
        a == b,
{
    assert(a.src_mac.0 == b.src_mac.0);
    assert(a.dest_mac.0 == b.dest_mac.0);
    assert(a.src_addr.0 == b.src_addr.0);
    assert(a.dest_addr.0 == b.dest_addr.0);
}

} // verus!

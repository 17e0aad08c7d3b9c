//! Fields shared by the IPv4 and IPv6 headers.

use vstd::prelude::*;
use crate::wire::{consumes, rest_after, read_u8, ParseError};

verus! {

/// An IP protocol number: a named protocol, or the raw number.
#[derive(Clone, Copy, Debug, PartialEq, Eq)]
pub enum IPProtocol {
    HOPOPT,
    ICMP,
    IGMP,
    GGP,
    IPINIP,
    ST,
    TCP,
    CBT,
    EGP,
    IGP,
    BBNRCCMON,
    NVPII,
    PUP,
    ARGUS,
    EMCON,
    XNET,
    CHAOS,
    UDP,
    IPV6,
    ICMP6,
    Other(u8),
}

impl IPProtocol {
    /// The protocol that the number `raw` stands for.
    pub open spec fn from_code(raw: u8) -> IPProtocol {
        match raw {
            0 => IPProtocol::HOPOPT,
            1 => IPProtocol::ICMP,
            2 => IPProtocol::IGMP,
            3 => IPProtocol::GGP,
            4 => IPProtocol::IPINIP,
            5 => IPProtocol::ST,
            6 => IPProtocol::TCP,
            7 => IPProtocol::CBT,
            8 => IPProtocol::EGP,
            9 => IPProtocol::IGP,
            10 => IPProtocol::BBNRCCMON,
            11 => IPProtocol::NVPII,
            12 => IPProtocol::PUP,
            13 => IPProtocol::ARGUS,
            14 => IPProtocol::EMCON,
            15 => IPProtocol::XNET,
            16 => IPProtocol::CHAOS,
            17 => IPProtocol::UDP,
            41 => IPProtocol::IPV6,
            58 => IPProtocol::ICMP6,
            other => IPProtocol::Other(other),
        }
    }
}

impl From<u8> for IPProtocol {
    fn from(raw: u8) -> (r: Self) {
        match raw {
            0 => IPProtocol::HOPOPT,
            1 => IPProtocol::ICMP,
            2 => IPProtocol::IGMP,
            3 => IPProtocol::GGP,
            4 => IPProtocol::IPINIP,
            5 => IPProtocol::ST,
            6 => IPProtocol::TCP,
            7 => IPProtocol::CBT,
            8 => IPProtocol::EGP,
            9 => IPProtocol::IGP,
            10 => IPProtocol::BBNRCCMON,
            11 => IPProtocol::NVPII,
            12 => IPProtocol::PUP,
            13 => IPProtocol::ARGUS,
            14 => IPProtocol::EMCON,
            15 => IPProtocol::XNET,
            16 => IPProtocol::CHAOS,
            17 => IPProtocol::UDP,
            41 => IPProtocol::IPV6,
            58 => IPProtocol::ICMP6,
            other => IPProtocol::Other(other),
        }
    }
}

impl vstd::std_specs::convert::FromSpecImpl<u8> for IPProtocol {
    open spec fn obeys_from_spec() -> bool {
        true
    }

    open spec fn from_spec(raw: u8) -> IPProtocol {
        IPProtocol::from_code(raw)
    }
}

/// The high and the low nibble of `b`.
pub(crate) fn two_nibbles(b: u8) -> (r: (u8, u8))
    ensures
        r.0 == b / 16,
        r.1 == b % 16,
{
    assert(b >> 4 == b / 16 && b & 0x0f == b % 16) by (bit_vector);
    (b >> 4, b & 0x0f)
}

/// The protocol named by the byte at `at`.
pub(crate) fn protocol_at(input: &[u8], at: usize) -> (r: IPProtocol)
    requires
        at < input@.len(),
    ensures
        r == IPProtocol::from_code(input@[at as int]),
{
    IPProtocol::from(read_u8(input, at))
}

/// Reads the protocol number at the start of `input`.
pub fn protocol(input: &[u8]) -> (r: Result<(&[u8], IPProtocol), ParseError>)
    ensures
        consumes(r, input@, 1),
        r matches Ok((_, p)) ==> p == IPProtocol::from_code(input@[0]),
{
    if input.len() < 1 {
        return Err(ParseError::Incomplete(1));
    }
    Ok((rest_after(input, 1), protocol_at(input, 0)))
}

} // verus!

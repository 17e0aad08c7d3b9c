//! ICMP messages, with the embedded IPv4 header that error messages carry.

use vstd::prelude::*;
use crate::ipv4::{
    address, ipv4_header_is_determined, ipv4_header_of, parse_ipv4_header, IPv4Header, Ipv4Addr,
    IPV4_HEADER_LEN,
};
use crate::wire::{be16, consumes, incomplete, read_be16, read_u8, rest_after, ParseError};

verus! {

/// Length in bytes of the type, code and checksum of an ICMP message.
pub const ICMP_HEADER_LEN: usize = 4;

/// Length in bytes of what follows the checksum in a destination
/// unreachable, redirect or time exceeded message: 4 bytes of its own, the
/// IPv4 header of the datagram that caused it and the first 8 bytes of that
/// datagram's payload.
pub const ICMP_ERROR_DATA_LEN: usize = 32;

/// The ICMP types whose messages carry an embedded IPv4 header.
pub const ICMP_DESTINATION_UNREACHABLE: u8 = 3;
pub const ICMP_REDIRECT: u8 = 5;
pub const ICMP_TIME_EXCEEDED: u8 = 11;

/// Length in bytes of the echoed start of a datagram's payload.
pub const ICMP_PAYLOAD_PACKET_LEN: usize = 8;

#[derive(Clone, Copy, Debug, PartialEq, Eq)]
pub enum Unreachable {
    DestinationNetworkUnreachable,
    DestinationHostUnreachable,
    DestinationProtocolUnreachable,
    DestinationPortUnreachable,
    FragmentationRequired,
    SourceRouteFailed,
    DestinationNetworkUnknown,
    DestinationHostUnknown,
    SourceHostIsolated,
    NetworkAdministrativelyProhibited,
    HostAdministrativelyProhibited,
    NetworkUnreachableForTos,
    HostUnreachableForTos,
    CommunicationAdministrativelyProhibited,
    HostPrecedenceViolation,
    PrecedentCutoffInEffect,
}

#[derive(Clone, Copy, Debug, PartialEq, Eq)]
pub enum Redirect {
    Network,
    Host,
    TosAndNetwork,
    TosAndHost,
}

#[derive(Clone, Copy, Debug, PartialEq, Eq)]
pub enum TimeExceeded {
    TTL,
    FragmentReassembly,
}

#[derive(Clone, Copy, Debug, PartialEq, Eq)]
pub enum ParameterProblem {
    Pointer,
    MissingRequiredOption,
    BadLength,
}

#[derive(Clone, Copy, Debug, PartialEq, Eq)]
pub enum ExtendedEchoReply {
    NoError,
    MalformedQuery,
    NoSuchInterface,
    NoSuchTableEntry,
    MupltipleInterfacesStatisfyQuery,
}

#[derive(Clone, Copy, Debug, PartialEq, Eq)]
pub enum IcmpCode {
    EchoReply,
    Reserved,
    DestinationUnreachable(Unreachable),
    SourceQuench,
    Redirect(Redirect),
    EchoRequest,
    RouterAdvertisment,
    RouterSolicication,
    TimeExceeded(TimeExceeded),
    ParameterProblem(ParameterProblem),
    Timestamp,
    TimestampReply,
    ExtendedEchoRequest,
    ExtendedEchoReply(ExtendedEchoReply),
    Other(u16),
}

impl IcmpCode {
    /// The message kind that the type byte `t` and code byte `c` stand for;
    /// `raw` is the two read as one big-endian 16-bit value.
    pub open spec fn from_type_code(t: u8, c: u8, raw: u16) -> IcmpCode {
        match t {
            0x00 => IcmpCode::EchoReply,
            0x01 => IcmpCode::Reserved,
            0x02 => IcmpCode::Reserved,
            0x03 => match c {
                0x00 => {
                    IcmpCode::DestinationUnreachable(Unreachable::DestinationNetworkUnreachable)
                }
                0x01 => IcmpCode::DestinationUnreachable(Unreachable::DestinationHostUnreachable),
                0x02 => {
                    IcmpCode::DestinationUnreachable(Unreachable::DestinationProtocolUnreachable)
                }
                0x03 => IcmpCode::DestinationUnreachable(Unreachable::DestinationPortUnreachable),
                0x04 => IcmpCode::DestinationUnreachable(Unreachable::FragmentationRequired),
                0x05 => IcmpCode::DestinationUnreachable(Unreachable::SourceRouteFailed),
                0x06 => IcmpCode::DestinationUnreachable(Unreachable::DestinationNetworkUnknown),
                0x07 => IcmpCode::DestinationUnreachable(Unreachable::DestinationHostUnknown),
                0x08 => IcmpCode::DestinationUnreachable(Unreachable::SourceHostIsolated),
                0x09 => {
                    IcmpCode::DestinationUnreachable(Unreachable::NetworkAdministrativelyProhibited)
                }
                0x0A => {
                    IcmpCode::DestinationUnreachable(Unreachable::HostAdministrativelyProhibited)
                }
                0x0B => IcmpCode::DestinationUnreachable(Unreachable::NetworkUnreachableForTos),
                0x0C => IcmpCode::DestinationUnreachable(Unreachable::HostUnreachableForTos),
                0x0D => IcmpCode::DestinationUnreachable(
                    Unreachable::CommunicationAdministrativelyProhibited,
                ),
                0x0E => IcmpCode::DestinationUnreachable(Unreachable::HostPrecedenceViolation),
                0x0F => IcmpCode::DestinationUnreachable(Unreachable::PrecedentCutoffInEffect),
                _ => IcmpCode::Other(raw),
            },
            0x04 => match c {
                0x00 => IcmpCode::SourceQuench,
                _ => IcmpCode::Other(raw),
            },
            0x05 => match c {
                0x00 => IcmpCode::Redirect(Redirect::Network),
                0x01 => IcmpCode::Redirect(Redirect::Host),
                0x02 => IcmpCode::Redirect(Redirect::TosAndNetwork),
                0x03 => IcmpCode::Redirect(Redirect::TosAndHost),
                _ => IcmpCode::Other(raw),
            },
            0x07 => IcmpCode::Reserved,
            0x08 => IcmpCode::EchoRequest,
            0x09 => IcmpCode::RouterAdvertisment,
            0x0A => IcmpCode::RouterSolicication,
            0x0B => match c {
                0x00 => IcmpCode::TimeExceeded(TimeExceeded::TTL),
                0x01 => IcmpCode::TimeExceeded(TimeExceeded::FragmentReassembly),
                _ => IcmpCode::Other(raw),
            },
            0x0C => match c {
                0x00 => IcmpCode::ParameterProblem(ParameterProblem::Pointer),
                0x01 => IcmpCode::ParameterProblem(ParameterProblem::MissingRequiredOption),
                0x02 => IcmpCode::ParameterProblem(ParameterProblem::BadLength),
                _ => IcmpCode::Other(raw),
            },
            0x0D => IcmpCode::Timestamp,
            0x0E => IcmpCode::TimestampReply,
            0x2A => IcmpCode::ExtendedEchoRequest,
            0x2B => match c {
                0x00 => IcmpCode::ExtendedEchoReply(ExtendedEchoReply::NoError),
                0x01 => IcmpCode::ExtendedEchoReply(ExtendedEchoReply::MalformedQuery),
                0x02 => IcmpCode::ExtendedEchoReply(ExtendedEchoReply::NoSuchInterface),
                0x03 => IcmpCode::ExtendedEchoReply(ExtendedEchoReply::NoSuchTableEntry),
                0x04 => {
                    IcmpCode::ExtendedEchoReply(ExtendedEchoReply::MupltipleInterfacesStatisfyQuery)
                }
                _ => IcmpCode::Other(raw),
            },
            _ => IcmpCode::Other(raw),
        }
    }

    /// The message kind that the 16-bit value `raw` (type byte, then code
    /// byte) stands for.
    pub open spec fn from_code(raw: u16) -> IcmpCode {
        IcmpCode::from_type_code((raw / 256) as u8, (raw % 256) as u8, raw)
    }
}

impl From<u16> for IcmpCode {
    fn from(raw: u16) -> (r: Self) {
        let t = (raw / 256) as u8;
        let c = (raw % 256) as u8;
        match t {
            0x00 => IcmpCode::EchoReply,
            0x01 => IcmpCode::Reserved,
            0x02 => IcmpCode::Reserved,
            0x03 => match c {
                0x00 => {
                    IcmpCode::DestinationUnreachable(Unreachable::DestinationNetworkUnreachable)
                }
                0x01 => IcmpCode::DestinationUnreachable(Unreachable::DestinationHostUnreachable),
                0x02 => {
                    IcmpCode::DestinationUnreachable(Unreachable::DestinationProtocolUnreachable)
                }
                0x03 => IcmpCode::DestinationUnreachable(Unreachable::DestinationPortUnreachable),
                0x04 => IcmpCode::DestinationUnreachable(Unreachable::FragmentationRequired),
                0x05 => IcmpCode::DestinationUnreachable(Unreachable::SourceRouteFailed),
                0x06 => IcmpCode::DestinationUnreachable(Unreachable::DestinationNetworkUnknown),
                0x07 => IcmpCode::DestinationUnreachable(Unreachable::DestinationHostUnknown),
                0x08 => IcmpCode::DestinationUnreachable(Unreachable::SourceHostIsolated),
                0x09 => {
                    IcmpCode::DestinationUnreachable(Unreachable::NetworkAdministrativelyProhibited)
                }
                0x0A => {
                    IcmpCode::DestinationUnreachable(Unreachable::HostAdministrativelyProhibited)
                }
                0x0B => IcmpCode::DestinationUnreachable(Unreachable::NetworkUnreachableForTos),
                0x0C => IcmpCode::DestinationUnreachable(Unreachable::HostUnreachableForTos),
                0x0D => IcmpCode::DestinationUnreachable(
                    Unreachable::CommunicationAdministrativelyProhibited,
                ),
                0x0E => IcmpCode::DestinationUnreachable(Unreachable::HostPrecedenceViolation),
                0x0F => IcmpCode::DestinationUnreachable(Unreachable::PrecedentCutoffInEffect),
                _ => IcmpCode::Other(raw),
            },
            0x04 => match c {
                0x00 => IcmpCode::SourceQuench,
                _ => IcmpCode::Other(raw),
            },
            0x05 => match c {
                0x00 => IcmpCode::Redirect(Redirect::Network),
                0x01 => IcmpCode::Redirect(Redirect::Host),
                0x02 => IcmpCode::Redirect(Redirect::TosAndNetwork),
                0x03 => IcmpCode::Redirect(Redirect::TosAndHost),
                _ => IcmpCode::Other(raw),
            },
            0x07 => IcmpCode::Reserved,
            0x08 => IcmpCode::EchoRequest,
            0x09 => IcmpCode::RouterAdvertisment,
            0x0A => IcmpCode::RouterSolicication,
            0x0B => match c {
                0x00 => IcmpCode::TimeExceeded(TimeExceeded::TTL),
                0x01 => IcmpCode::TimeExceeded(TimeExceeded::FragmentReassembly),
                _ => IcmpCode::Other(raw),
            },
            0x0C => match c {
                0x00 => IcmpCode::ParameterProblem(ParameterProblem::Pointer),
                0x01 => IcmpCode::ParameterProblem(ParameterProblem::MissingRequiredOption),
                0x02 => IcmpCode::ParameterProblem(ParameterProblem::BadLength),
                _ => IcmpCode::Other(raw),
            },
            0x0D => IcmpCode::Timestamp,
            0x0E => IcmpCode::TimestampReply,
            0x2A => IcmpCode::ExtendedEchoRequest,
            0x2B => match c {
                0x00 => IcmpCode::ExtendedEchoReply(ExtendedEchoReply::NoError),
                0x01 => IcmpCode::ExtendedEchoReply(ExtendedEchoReply::MalformedQuery),
                0x02 => IcmpCode::ExtendedEchoReply(ExtendedEchoReply::NoSuchInterface),
                0x03 => IcmpCode::ExtendedEchoReply(ExtendedEchoReply::NoSuchTableEntry),
                0x04 => {
                    IcmpCode::ExtendedEchoReply(ExtendedEchoReply::MupltipleInterfacesStatisfyQuery)
                }
                _ => IcmpCode::Other(raw),
            },
            _ => IcmpCode::Other(raw),
        }
    }
}

impl vstd::std_specs::convert::FromSpecImpl<u16> for IcmpCode {
    open spec fn obeys_from_spec() -> bool {
        true
    }

    open spec fn from_spec(raw: u16) -> IcmpCode {
        IcmpCode::from_code(raw)
    }
}

/// The first 8 bytes of the payload of the datagram that an ICMP error
/// message reports on.
#[derive(Clone, Copy, Debug, PartialEq, Eq, Default)]
pub struct IcmpPayloadPacket(pub [u8; 8]);

/// What follows the checksum of an ICMP message, by kind of message.
#[derive(Clone, Copy, Debug, PartialEq, Eq)]
pub enum IcmpData {
    Unreachable { nexthop_mtu: u16, header: IPv4Header, packet: IcmpPayloadPacket },
    Redirect { gateway: Ipv4Addr, header: IPv4Header, packet: IcmpPayloadPacket },
    TimeExceeded { header: IPv4Header, packet: IcmpPayloadPacket },
    /// The message carries no data that is decoded here.
    NoData,
}

#[derive(Clone, Copy, Debug, PartialEq, Eq)]
pub struct IcmpHeader {
    pub code: IcmpCode,
    /// The checksum as found on the wire; it is not checked.
    pub checksum: u16,
    pub data: IcmpData,
}

/// `header` and `packet` hold the IPv4 header at the start of `s` and the 8
/// bytes after it.
pub open spec fn header_and_packet_of(
    header: IPv4Header,
    packet: IcmpPayloadPacket,
    s: Seq<u8>,
) -> bool {
    &&& ipv4_header_of(header, s)
    &&& packet.0@ == s.subrange(
        IPV4_HEADER_LEN as int,
        (IPV4_HEADER_LEN + ICMP_PAYLOAD_PACKET_LEN) as int,
    )
}

/// `d` holds the data of a destination unreachable message that starts `s`:
/// 2 unused bytes, the next-hop MTU, then the embedded header and packet.
pub open spec fn unreachable_data_of(d: IcmpData, s: Seq<u8>) -> bool {
    d matches IcmpData::Unreachable { nexthop_mtu, header, packet } && nexthop_mtu == be16(s, 2)
        && header_and_packet_of(header, packet, s.skip(4))
}

/// `d` holds the data of a redirect message that starts `s`: the gateway
/// address, then the embedded header and packet.
pub open spec fn redirect_data_of(d: IcmpData, s: Seq<u8>) -> bool {
    d matches IcmpData::Redirect { gateway, header, packet } && gateway.0@ == s.subrange(0, 4)
        && header_and_packet_of(header, packet, s.skip(4))
}

/// `d` holds the data of a time exceeded message that starts `s`: 4 unused
/// bytes, then the embedded header and packet.
pub open spec fn time_exceeded_data_of(d: IcmpData, s: Seq<u8>) -> bool {
    d matches IcmpData::TimeExceeded { header, packet } && header_and_packet_of(
        header,
        packet,
        s.skip(4),
    )
}

/// Whether messages of type `t` carry an embedded IPv4 header. The type
/// alone decides, whatever the code byte.
pub open spec fn carries_embedded_header(t: u8) -> bool {
    t == ICMP_DESTINATION_UNREACHABLE || t == ICMP_REDIRECT || t == ICMP_TIME_EXCEEDED
}

/// The length of the ICMP message part that is decoded from the start of `s`,
/// as far as `s` shows it: 36 bytes for a message that carries an embedded
/// header, 4 otherwise or where the kind is not known yet.
pub open spec fn icmp_header_len(s: Seq<u8>) -> nat {
    if s.len() >= 1 && carries_embedded_header(s[0]) {
        (ICMP_HEADER_LEN + ICMP_ERROR_DATA_LEN) as nat
    } else {
        ICMP_HEADER_LEN as nat
    }
}

/// `d` holds what follows the checksum `s` of a message of type `t`.
pub open spec fn icmp_data_of(d: IcmpData, t: u8, s: Seq<u8>) -> bool {
    if t == ICMP_DESTINATION_UNREACHABLE {
        unreachable_data_of(d, s)
    } else if t == ICMP_REDIRECT {
        redirect_data_of(d, s)
    } else if t == ICMP_TIME_EXCEEDED {
        time_exceeded_data_of(d, s)
    } else {
        d is NoData
    }
}

/// `h` holds the ICMP message at the start of `s`.
pub open spec fn icmp_header_of(h: IcmpHeader, s: Seq<u8>) -> bool {
    &&& h.code == IcmpCode::from_code(be16(s, 0))
    &&& h.checksum == be16(s, 2)
    &&& icmp_data_of(h.data, s[0], s.skip(ICMP_HEADER_LEN as int))
}

/// The 8 bytes at `at`.
fn payload_packet(input: &[u8], at: usize) -> (r: IcmpPayloadPacket)
    requires
        at + 8 <= input.len(),
    ensures
        r.0@ == input@.subrange(at as int, at + 8),
{
    let r = IcmpPayloadPacket(
        [
            input[at],
            input[at + 1],
            input[at + 2],
            input[at + 3],
            input[at + 4],
            input[at + 5],
            input[at + 6],
            input[at + 7],
        ],
    );
    assert(r.0@ =~= input@.subrange(at as int, at + 8));
    r
}

/// Decodes an IPv4 header and the 8 bytes that follow it.
fn parse_ipv4_header_and_packet(input: &[u8]) -> (r: Result<
    (&[u8], (IPv4Header, IcmpPayloadPacket)),
    ParseError,
>)
    ensures
        consumes(r, input@, (IPV4_HEADER_LEN + ICMP_PAYLOAD_PACKET_LEN) as nat),
        r matches Ok((_, (header, packet))) ==> header_and_packet_of(header, packet, input@),
{
    let need = IPV4_HEADER_LEN + ICMP_PAYLOAD_PACKET_LEN;
    if input.len() < need {
        return Err(incomplete(need, input.len()));
    }
    let header = match parse_ipv4_header(input) {
        Ok((_, header)) => header,
        Err(e) => return Err(e),
    };
    let packet = payload_packet(input, IPV4_HEADER_LEN);
    Ok((rest_after(input, need), (header, packet)))
}

/// Decodes the data of a destination unreachable message.
fn parse_icmp_unreachable_data(input: &[u8]) -> (r: Result<(&[u8], IcmpData), ParseError>)
    ensures
        consumes(r, input@, ICMP_ERROR_DATA_LEN as nat),
        r matches Ok((_, d)) ==> unreachable_data_of(d, input@),
{
    if input.len() < ICMP_ERROR_DATA_LEN {
        return Err(incomplete(ICMP_ERROR_DATA_LEN, input.len()));
    }
    let nexthop_mtu = read_be16(input, 2);
    let (rest, (header, packet)) = match parse_ipv4_header_and_packet(rest_after(input, 4)) {
        Ok(decoded) => decoded,
        Err(e) => return Err(e),
    };
    assert(rest@ =~= input@.skip(ICMP_ERROR_DATA_LEN as int));
    Ok((rest, IcmpData::Unreachable { nexthop_mtu, header, packet }))
}

/// Decodes the data of a redirect message.
fn parse_icmp_redirect_data(input: &[u8]) -> (r: Result<(&[u8], IcmpData), ParseError>)
    ensures
        consumes(r, input@, ICMP_ERROR_DATA_LEN as nat),
        r matches Ok((_, d)) ==> redirect_data_of(d, input@),
{
    if input.len() < ICMP_ERROR_DATA_LEN {
        return Err(incomplete(ICMP_ERROR_DATA_LEN, input.len()));
    }
    let gateway = address(input, 0);
    let (rest, (header, packet)) = match parse_ipv4_header_and_packet(rest_after(input, 4)) {
        Ok(decoded) => decoded,
        Err(e) => return Err(e),
    };
    assert(rest@ =~= input@.skip(ICMP_ERROR_DATA_LEN as int));
    Ok((rest, IcmpData::Redirect { gateway, header, packet }))
}

/// Decodes the data of a time exceeded message.
fn parse_icmp_timeexceeded_data(input: &[u8]) -> (r: Result<(&[u8], IcmpData), ParseError>)
    ensures
        consumes(r, input@, ICMP_ERROR_DATA_LEN as nat),
        r matches Ok((_, d)) ==> time_exceeded_data_of(d, input@),
{
    if input.len() < ICMP_ERROR_DATA_LEN {
        return Err(incomplete(ICMP_ERROR_DATA_LEN, input.len()));
    }
    let (rest, (header, packet)) = match parse_ipv4_header_and_packet(rest_after(input, 4)) {
        Ok(decoded) => decoded,
        Err(e) => return Err(e),
    };
    assert(rest@ =~= input@.skip(ICMP_ERROR_DATA_LEN as int));
    Ok((rest, IcmpData::TimeExceeded { header, packet }))
}

/// Decodes the ICMP message at the start of `input`.
///
/// Messages of type destination unreachable (3), redirect (5) and time
/// exceeded (11) carry the IPv4 header of the datagram they report on and 8
/// bytes of its payload, which are decoded too, whatever the code byte.
/// Other messages end after the checksum here, and what follows is left to
/// the caller.
pub fn parse_icmp_header(input: &[u8]) -> (r: Result<(&[u8], IcmpHeader), ParseError>)
    ensures
        consumes(r, input@, icmp_header_len(input@)),
        r matches Ok((_, h)) ==> icmp_header_of(h, input@),
{
    if input.len() < 1 {
        return Err(incomplete(ICMP_HEADER_LEN, input.len()));
    }
    let icmp_type = read_u8(input, 0);
    let need = if icmp_type == ICMP_DESTINATION_UNREACHABLE || icmp_type == ICMP_REDIRECT
        || icmp_type == ICMP_TIME_EXCEEDED {
        ICMP_HEADER_LEN + ICMP_ERROR_DATA_LEN
    } else {
        ICMP_HEADER_LEN
    };
    if input.len() < need {
        return Err(incomplete(need, input.len()));
    }
    let code = IcmpCode::from(read_be16(input, 0));
    let checksum = read_be16(input, 2);
    let body = rest_after(input, ICMP_HEADER_LEN);
    let decoded = if icmp_type == ICMP_DESTINATION_UNREACHABLE {
        parse_icmp_unreachable_data(body)
    } else if icmp_type == ICMP_REDIRECT {
        parse_icmp_redirect_data(body)
    } else if icmp_type == ICMP_TIME_EXCEEDED {
        parse_icmp_timeexceeded_data(body)
    } else {
        Ok((body, IcmpData::NoData))
    };
    let (rest, data) = match decoded {
        Ok(decoded) => decoded,
        Err(e) => return Err(e),
    };
    assert(rest@ =~= input@.skip(need as int));
    Ok((rest, IcmpHeader { code, checksum, data }))
}

/// Decoding the same bytes twice gives the same message.
pub proof fn icmp_header_is_determined(a: IcmpHeader, b: IcmpHeader, s: Seq<u8>)
    requires
        icmp_header_of(a, s),
        icmp_header_of(b, s),
    ensures
        a == b,
{
    let d = s.skip(ICMP_HEADER_LEN as int);
    match a.data {
        IcmpData::Unreachable { header, packet, .. } => {
            let (ha, pa) = (header, packet);
            if let IcmpData::Unreachable { header, packet, .. } = b.data {
                ipv4_header_is_determined(ha, header, d.skip(4));
                assert(pa.0 == packet.0);
            }
        },
        IcmpData::Redirect { gateway, header, packet } => {
            let (ga, ha, pa) = (gateway, header, packet);
            if let IcmpData::Redirect { gateway, header, packet } = b.data {
                ipv4_header_is_determined(ha, header, d.skip(4));
                assert(pa.0 == packet.0);
                assert(ga.0 == gateway.0);
            }
        },
        IcmpData::TimeExceeded { header, packet } => {
            let (ha, pa) = (header, packet);
            if let IcmpData::TimeExceeded { header, packet } = b.data {
                ipv4_header_is_determined(ha, header, d.skip(4));
                assert(pa.0 == packet.0);
            }
        },
        IcmpData::NoData => {},
    }
}

/// Cutting a whole ICMP message short, anywhere before the end of what is
/// decoded of it, leaves a length that the bytes left do not reach: the
/// decoder asks for more, and for no more than the whole message had.
pub proof fn truncated_icmp_header_is_short(s: Seq<u8>, k: nat)
    requires
        icmp_header_len(s) <= s.len(),
        k < icmp_header_len(s),
    ensures
        k < icmp_header_len(s.take(k as int)) <= icmp_header_len(s),
{
    if k >= 1 {
        assert(s.take(k as int)[0] == s[0]);
    }
}

} // verus!

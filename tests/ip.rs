use pktparse::ip::{protocol, IPProtocol};
use pktparse::ipv4::{parse_ipv4_header, IPv4Header, Ipv4Addr};
use pktparse::ipv6::{parse_ipv6_header, IPv6Header, Ipv6Addr};
use pktparse::wire::ParseError;

const EMPTY_SLICE: &'static [u8] = &[];

#[test]
fn protocol_gets_icmp_correct() {
    let bytes = [1];
    assert_eq!(protocol(&bytes), Ok((EMPTY_SLICE, IPProtocol::ICMP)));
}

#[test]
fn protocol_gets_tcp_correct() {
    let bytes = [6];
    assert_eq!(protocol(&bytes), Ok((EMPTY_SLICE, IPProtocol::TCP)));
}

#[test]
fn protocol_gets_udp_correct() {
    let bytes = [17];
    assert_eq!(protocol(&bytes), Ok((EMPTY_SLICE, IPProtocol::UDP)));
}

#[test]
fn protocol_table_edges() {
    assert_eq!(IPProtocol::from(0u8), IPProtocol::HOPOPT);
    assert_eq!(IPProtocol::from(41u8), IPProtocol::IPV6);
    assert_eq!(IPProtocol::from(58u8), IPProtocol::ICMP6);
    assert_eq!(IPProtocol::from(18u8), IPProtocol::Other(18));
    assert_eq!(protocol(EMPTY_SLICE), Err(ParseError::Incomplete(1)));
}

#[test]
fn ipv4_ipparse_gets_packet_correct() {
    let bytes = [
        0x45, /* IP version and length = 20 */
        0x00, /* Differentiated services field */
        0x05, 0xdc, /* Total length */
        0x1a, 0xe6, /* Identification */
        0x20, 0x00, /* flags and fragment offset */
        0x40, /* TTL */
        0x01, /* protocol */
        0x22, 0xed, /* checksum */
        0x0a, 0x0a, 0x01, 0x87, /* source IP */
        0x0a, 0x0a, 0x01, 0xb4, /* destination IP */
    ];

    let expectation = IPv4Header {
        version: 4,
        ihl: 5,
        tos: 0,
        length: 1500,
        id: 0x1ae6,
        flags: 0x01,
        fragment_offset: 0,
        ttl: 64,
        protocol: IPProtocol::ICMP,
        chksum: 0x22ed,
        source_addr: Ipv4Addr::new(10, 10, 1, 135),
        dest_addr: Ipv4Addr::new(10, 10, 1, 180),
    };
    assert_eq!(parse_ipv4_header(&bytes), Ok((EMPTY_SLICE, expectation)));
}

#[test]
fn ipv4_flags_and_fragment_offset_split() {
    let bytes = [
        0x46, 0xb8, 0x00, 0x20, 0x00, 0x01, // version 4, ihl 6, tos, length, id
        0xbf, 0xff, // flags 0b101, fragment offset 0x1fff
        0x01, 0x11, 0x00, 0x00, // ttl, protocol, checksum
        1, 2, 3, 4, 5, 6, 7, 8, // addresses
        0x99, 0x99, 0x99, 0x99, // options, left to the caller
    ];
    let (rest, header) = parse_ipv4_header(&bytes).unwrap();
    assert_eq!(rest.len(), 4);
    assert_eq!(header.ihl, 6);
    assert_eq!(header.tos, 0xb8);
    assert_eq!(header.flags, 5);
    assert_eq!(header.fragment_offset, 0x1fff);
    assert_eq!(header.protocol, IPProtocol::UDP);
}

#[test]
fn ipv4_other_versions_are_reported() {
    let mut bytes = [0u8; 20];
    bytes[0] = 0x65;
    let (_, header) = parse_ipv4_header(&bytes).unwrap();
    assert_eq!(header.version, 6);
    assert_eq!(header.ihl, 5);
}

#[test]
fn ipv4_header_incomplete() {
    let bytes = [0x45u8; 19];
    assert_eq!(parse_ipv4_header(&bytes), Err(ParseError::Incomplete(1)));
    assert_eq!(parse_ipv4_header(&bytes[..5]), Err(ParseError::Incomplete(15)));
}

fn ipv6_bytes() -> [u8; 40] {
    [
        0x60, /* IP version and differentiated services */
        0x20, /* Differentiated services,
              explicit congestion notification and
              partial flow label */
        0x01, 0xff, /* Flow label */
        0x05, 0x78, /* Payload length */
        0x3a, /* Next header */
        0x05, /* Hop limit */
        0x20, 0x01, 0x0d, 0xb8, 0x5c, 0xf8, 0x1a, 0xa8, 0x24, 0x81, 0x61, 0xe6, 0x5a, 0xc6,
        0x03, 0xe0, /* source IP */
        0x20, 0x01, 0x0d, 0xb8, 0x78, 0x90, 0x2a, 0xe9, 0x90, 0x8f, 0xa9, 0xf4, 0x2f, 0x4a,
        0x9b, 0x80, /* destination IP */
    ]
}

#[test]
fn ipv6_ipparse_gets_packet_correct() {
    let bytes = ipv6_bytes();

    let expectation = IPv6Header {
        version: 6,
        ds: 0,
        ecn: 2,
        flow_label: 511,
        length: 1400,
        next_header: IPProtocol::ICMP6,
        hop_limit: 5,
        source_addr: Ipv6Addr::new(
            0x2001, 0xdb8, 0x5cf8, 0x1aa8, 0x2481, 0x61e6, 0x5ac6, 0x3e0,
        ),
        dest_addr: Ipv6Addr::new(
            0x2001, 0xdb8, 0x7890, 0x2ae9, 0x908f, 0xa9f4, 0x2f4a, 0x9b80,
        ),
    };
    assert_eq!(parse_ipv6_header(&bytes), Ok((EMPTY_SLICE, expectation)));
}

#[test]
fn ipv6_traffic_class_and_flow_label_cross_bytes() {
    let mut bytes = ipv6_bytes();
    // version 6, traffic class 0xb7 (ds 0x2d, ecn 3), flow label 0xabcde
    bytes[0] = 0x6b;
    bytes[1] = 0x7a;
    bytes[2] = 0xbc;
    bytes[3] = 0xde;
    let (_, header) = parse_ipv6_header(&bytes).unwrap();
    assert_eq!(header.version, 6);
    assert_eq!(header.ds, 0x2d);
    assert_eq!(header.ecn, 3);
    assert_eq!(header.flow_label, 0xabcde);
}

#[test]
fn ipv6_address_segments() {
    let a = Ipv6Addr::new(0x2001, 0xdb8, 0, 0, 0, 0, 0xff00, 0x1);
    assert_eq!(
        a.octets(),
        [0x20, 0x01, 0x0d, 0xb8, 0, 0, 0, 0, 0, 0, 0, 0, 0xff, 0x00, 0x00, 0x01]
    );
    assert_eq!(Ipv4Addr::new(1, 2, 3, 4).octets(), [1, 2, 3, 4]);
}

#[test]
fn ipv6_header_incomplete() {
    let bytes = ipv6_bytes();
    assert_eq!(parse_ipv6_header(&bytes[..39]), Err(ParseError::Incomplete(1)));
    assert_eq!(parse_ipv6_header(&bytes[..1]), Err(ParseError::Incomplete(39)));
}

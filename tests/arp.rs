use pktparse::arp::{parse_arp_pkt, ArpPacket, HardwareAddressType, Operation, ProtocolAddressType};
use pktparse::ethernet::MacAddress;
use pktparse::ipv4::Ipv4Addr;
use pktparse::wire::ParseError;

const EMPTY_SLICE: &'static [u8] = &[];

#[test]
fn arp_packet_works() {
    let bytes = [
        0, 1, // hardware type
        8, 0, // proto type
        6, 4, // sizes
        0, 1, // arp operation
        0x00, 0x1b, 0x21, 0x0f, 0x91, 0x9b, // src mac
        10, 10, 1, 135, // src ip
        0xde, 0xad, 0xc0, 0x00, 0xff, 0xee, // dest mac
        192, 168, 1, 253, // dest ip
    ];

    let expectation = ArpPacket {
        hw_addr_type: HardwareAddressType::Ethernet,
        proto_addr_type: ProtocolAddressType::IPv4,

        hw_addr_size: 6,
        proto_addr_size: 4,

        operation: Operation::Request,

        src_mac: MacAddress([0x00, 0x1b, 0x21, 0x0f, 0x91, 0x9b]),
        src_addr: Ipv4Addr::new(10, 10, 1, 135),

        dest_mac: MacAddress([0xde, 0xad, 0xc0, 0x00, 0xff, 0xee]),
        dest_addr: Ipv4Addr::new(192, 168, 1, 253),
    };
    assert_eq!(parse_arp_pkt(&bytes), Ok((EMPTY_SLICE, expectation)));
}

#[test]
fn arp_unknown_codes_are_kept_and_sizes_reported() {
    let bytes = [
        0, 6, // hardware type
        0x86, 0xdd, // proto type
        8, 16, // sizes, not used for the widths read
        0, 9, // arp operation
        1, 2, 3, 4, 5, 6, // src mac
        7, 8, 9, 10, // src ip
        11, 12, 13, 14, 15, 16, // dest mac
        17, 18, 19, 20, // dest ip
        0xff, // trailing byte
    ];
    let (rest, packet) = parse_arp_pkt(&bytes).unwrap();
    assert_eq!(rest, &[0xff]);
    assert_eq!(packet.hw_addr_type, HardwareAddressType::Other(6));
    assert_eq!(packet.proto_addr_type, ProtocolAddressType::Other(0x86dd));
    assert_eq!(packet.hw_addr_size, 8);
    assert_eq!(packet.proto_addr_size, 16);
    assert_eq!(packet.operation, Operation::Other(9));
    assert_eq!(packet.src_addr.octets(), [7, 8, 9, 10]);
    assert_eq!(packet.dest_mac, MacAddress([11, 12, 13, 14, 15, 16]));
    assert_eq!(Operation::from(2u16), Operation::Reply);
}

#[test]
fn arp_packet_incomplete() {
    let bytes = [0u8; 27];
    assert_eq!(parse_arp_pkt(&bytes), Err(ParseError::Incomplete(1)));
    assert_eq!(parse_arp_pkt(&bytes[..8]), Err(ParseError::Incomplete(20)));
}

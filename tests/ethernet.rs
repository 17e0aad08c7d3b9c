use pktparse::ethernet::{
    mac_address, parse_ethernet_frame, parse_ethertype, parse_vlan_ethernet_frame, EtherType,
    EthernetFrame, MacAddress, VlanEthernetFrame,
};
use pktparse::wire::ParseError;

const EMPTY_SLICE: &'static [u8] = &[];

#[test]
fn mac_address_works() {
    let bytes = [0x9c, 0x5c, 0x8e, 0x90, 0xca, 0xfc];
    assert_eq!(mac_address(&bytes), Ok((EMPTY_SLICE, MacAddress(bytes))));
}

#[test]
fn ethertype_gets_ipv4_correct() {
    let bytes = [0x08, 0x00];
    assert_eq!(parse_ethertype(&bytes), Ok((EMPTY_SLICE, EtherType::IPv4)));
}

#[test]
fn ethertype_gets_arp_correct() {
    let bytes = [0x08, 0x06];
    assert_eq!(parse_ethertype(&bytes), Ok((EMPTY_SLICE, EtherType::ARP)));
}

#[test]
fn ethertype_gets_ipv6_correct() {
    let bytes = [0x86, 0xDD];
    assert_eq!(parse_ethertype(&bytes), Ok((EMPTY_SLICE, EtherType::IPv6)));
}

#[test]
fn ethertype_gets_vlan_correct() {
    let bytes = [0x81, 0x00];
    assert_eq!(parse_ethertype(&bytes), Ok((EMPTY_SLICE, EtherType::VLAN)));
}

#[test]
fn ethertype_unknown_code_is_kept() {
    let bytes = [0x12, 0x34, 0xff];
    assert_eq!(parse_ethertype(&bytes), Ok((&bytes[2..], EtherType::Other(0x1234))));
    assert_eq!(EtherType::from(0x9100u16), EtherType::VLANdouble);
    assert_eq!(EtherType::from(0x002Eu16), EtherType::LANMIN);
    assert_eq!(EtherType::from(0x88CCu16), EtherType::LLDP);
    assert_eq!(EtherType::from(0xffffu16), EtherType::Other(0xffff));
}

#[test]
fn short_field_reads_ask_for_the_rest() {
    assert_eq!(mac_address(&[1, 2, 3]), Err(ParseError::Incomplete(3)));
    assert_eq!(parse_ethertype(&[0x08]), Err(ParseError::Incomplete(1)));
    assert_eq!(parse_ethertype(EMPTY_SLICE), Err(ParseError::Incomplete(2)));
}

#[test]
fn ethernet_frame_works() {
    let bytes = [
        0x00, 0x23, 0x54, 0x07, 0x93, 0x6c, /* dest MAC */
        0x00, 0x1b, 0x21, 0x0f, 0x91, 0x9b, /* src MAC */
        0x08, 0x00, // Ethertype
    ];
    let expectation = EthernetFrame {
        source_mac: MacAddress([0x00, 0x1b, 0x21, 0x0f, 0x91, 0x9b]),
        dest_mac: MacAddress([0x00, 0x23, 0x54, 0x07, 0x93, 0x6c]),
        ethertype: EtherType::IPv4,
    };
    assert_eq!(parse_ethernet_frame(&bytes), Ok((EMPTY_SLICE, expectation)));
}

#[test]
fn ethernet_frame_consumes_exactly_fourteen_bytes() {
    let bytes = [
        1, 2, 3, 4, 5, 6, // dest MAC
        7, 8, 9, 10, 11, 12, // src MAC
        0x86, 0xdd, // Ethertype
        0xaa, 0xbb, 0xcc, // payload
    ];
    let (rest, frame) = parse_ethernet_frame(&bytes).unwrap();
    assert_eq!(rest, &[0xaa, 0xbb, 0xcc]);
    assert_eq!(frame.dest_mac, MacAddress([1, 2, 3, 4, 5, 6]));
    assert_eq!(frame.source_mac, MacAddress([7, 8, 9, 10, 11, 12]));
    assert_eq!(frame.ethertype, EtherType::IPv6);
}

#[test]
fn ethernet_frame_incomplete() {
    let bytes = [0u8; 13];
    assert_eq!(parse_ethernet_frame(&bytes), Err(ParseError::Incomplete(1)));
    assert_eq!(parse_ethernet_frame(EMPTY_SLICE), Err(ParseError::Incomplete(14)));
}

#[test]
fn parse_vlan_ethernet_frame_works() {
    let bytes = [
        0x00, 0x23, 0x54, 0x07, 0x93, 0x6c, /* dest MAC */
        0x00, 0x1b, 0x21, 0x0f, 0x91, 0x9b, /* src MAC */
        0x81, 0x00, 0x04, 0xd2, // VLAN
        0x08, 0x00, // Ethertype
    ];
    let expectation = VlanEthernetFrame {
        source_mac: MacAddress([0x00, 0x1b, 0x21, 0x0f, 0x91, 0x9b]),
        dest_mac: MacAddress([0x00, 0x23, 0x54, 0x07, 0x93, 0x6c]),
        ethertype: EtherType::IPv4,
        vid: Some(1234),
    };
    assert_eq!(
        parse_vlan_ethernet_frame(&bytes),
        Ok((EMPTY_SLICE, expectation))
    );

    let bytes = [
        0x00, 0x23, 0x54, 0x07, 0x93, 0x6c, /* dest MAC */
        0x00, 0x1b, 0x21, 0x0f, 0x91, 0x9b, /* src MAC */
        0x08, 0x00, // Ethertype
    ];
    let expectation = VlanEthernetFrame {
        source_mac: MacAddress([0x00, 0x1b, 0x21, 0x0f, 0x91, 0x9b]),
        dest_mac: MacAddress([0x00, 0x23, 0x54, 0x07, 0x93, 0x6c]),
        ethertype: EtherType::IPv4,
        vid: None,
    };
    assert_eq!(
        parse_vlan_ethernet_frame(&bytes),
        Ok((EMPTY_SLICE, expectation))
    );
}

#[test]
fn vlan_frame_tagged_twice_unwraps_one_tag() {
    let bytes = [
        1, 2, 3, 4, 5, 6, // dest MAC
        7, 8, 9, 10, 11, 12, // src MAC
        0x81, 0x00, 0x00, 0x0a, // outer tag
        0x81, 0x00, 0x00, 0x14, // inner tag
        0x08, 0x00, // Ethertype
    ];
    let (rest, frame) = parse_vlan_ethernet_frame(&bytes).unwrap();
    assert_eq!(frame.vid, Some(10));
    assert_eq!(frame.ethertype, EtherType::VLAN);
    assert_eq!(rest, &[0x00, 0x14, 0x08, 0x00]);
}

#[test]
fn vlan_frame_incomplete_tag() {
    let bytes = [
        1, 2, 3, 4, 5, 6, // dest MAC
        7, 8, 9, 10, 11, 12, // src MAC
        0x81, 0x00, 0x04, // part of a tag
    ];
    assert_eq!(parse_vlan_ethernet_frame(&bytes), Err(ParseError::Incomplete(3)));
    assert_eq!(parse_vlan_ethernet_frame(&bytes[..12]), Err(ParseError::Incomplete(2)));
}

use pktparse::arp::parse_arp_pkt;
use pktparse::ethernet::{parse_ethernet_frame, parse_vlan_ethernet_frame, EtherType};
use pktparse::icmp::parse_icmp_header;
use pktparse::ipv4::parse_ipv4_header;
use pktparse::ipv6::parse_ipv6_header;
use pktparse::tcp::parse_tcp_header;
use pktparse::udp::parse_udp_header;
use pktparse::wire::ParseError;

fn tcp_with_options() -> Vec<u8> {
    vec![
        0x00, 0x50, 0xc2, 0x27, 0x48, 0xf3, 0x02, 0xc2, 0x61, 0xd3, 0x16, 0xa8, 0x80, 0x12, 0xff,
        0xff, 0x9b, 0x80, 0x00, 0x00, 0x02, 0x04, 0x05, 0x3a, 0x01, 0x03, 0x03, 0x04, 0x04, 0x02,
        0x00, 0x00,
    ]
}

fn icmp_redirect() -> Vec<u8> {
    vec![
        5, 1, 0xaa, 0xbb, 0x0a, 0x0a, 0x01, 0x86, 0x45, 0x00, 0x05, 0xdc, 0x1a, 0xe6, 0x20, 0x00,
        0x40, 0x01, 0x22, 0xed, 0x0a, 0x0a, 0x01, 0x87, 0x0a, 0x0a, 0x01, 0xb4, 1, 2, 3, 4, 5, 6, 7,
        8,
    ]
}

fn vlan_frame() -> Vec<u8> {
    vec![
        1, 2, 3, 4, 5, 6, 7, 8, 9, 10, 11, 12, 0x81, 0x00, 0x0f, 0xff, 0x86, 0xdd,
    ]
}

#[test]
fn decoding_twice_gives_the_same_records() {
    let tcp = tcp_with_options();
    assert_eq!(parse_tcp_header(&tcp), parse_tcp_header(&tcp));
    let icmp = icmp_redirect();
    assert_eq!(parse_icmp_header(&icmp), parse_icmp_header(&icmp));
    let vlan = vlan_frame();
    assert_eq!(parse_vlan_ethernet_frame(&vlan), parse_vlan_ethernet_frame(&vlan));
}

#[test]
fn vlan_tag_round_trip() {
    let vlan = vlan_frame();
    let (rest, frame) = parse_vlan_ethernet_frame(&vlan).unwrap();
    assert!(rest.is_empty());
    assert_eq!(frame.vid, Some(0x0fff));
    assert_eq!(frame.ethertype, EtherType::IPv6);

    let mut untagged = vlan[..12].to_vec();
    untagged.extend_from_slice(&[0x08, 0x06, 0x81, 0x00]);
    let (rest, frame) = parse_vlan_ethernet_frame(&untagged).unwrap();
    assert_eq!(rest, &[0x81, 0x00]);
    assert_eq!(frame.vid, None);
    assert_eq!(frame.ethertype, EtherType::ARP);
}

#[test]
fn truncated_headers_ask_for_more() {
    let tcp = tcp_with_options();
    for k in 0..tcp.len() {
        assert!(matches!(parse_tcp_header(&tcp[..k]), Err(ParseError::Incomplete(n)) if n >= 1));
    }
    let icmp = icmp_redirect();
    for k in 0..icmp.len() {
        assert!(matches!(parse_icmp_header(&icmp[..k]), Err(ParseError::Incomplete(n)) if n >= 1));
    }
    let vlan = vlan_frame();
    for k in 0..vlan.len() {
        assert!(matches!(parse_vlan_ethernet_frame(&vlan[..k]), Err(ParseError::Incomplete(n)) if n >= 1));
    }
    let bytes = [0u8; 40];
    for k in 0..40 {
        assert_eq!(parse_ipv6_header(&bytes[..k]), Err(ParseError::Incomplete(40 - k)));
        if k < 28 {
            assert_eq!(parse_arp_pkt(&bytes[..k]), Err(ParseError::Incomplete(28 - k)));
        }
        if k < 20 {
            assert_eq!(parse_ipv4_header(&bytes[..k]), Err(ParseError::Incomplete(20 - k)));
        }
        if k < 14 {
            assert_eq!(parse_ethernet_frame(&bytes[..k]), Err(ParseError::Incomplete(14 - k)));
        }
        if k < 8 {
            assert_eq!(parse_udp_header(&bytes[..k]), Err(ParseError::Incomplete(8 - k)));
        }
    }
}

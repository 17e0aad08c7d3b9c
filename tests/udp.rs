use pktparse::udp::{parse_udp_header, UdpHeader};
use pktparse::wire::ParseError;

const EMPTY_SLICE: &'static [u8] = &[];

#[test]
fn udp_header_works() {
    let bytes = [
        0x00, 0x12, 0x11, 0x11, // source & destination ports
        0x00, 0x1b, 0x21, 0x0f, // length & checksum
    ];
    let expectation = UdpHeader {
        source_port: 0x12,
        dest_port: 0x1111,
        length: 0x1b,
        checksum: 0x210f,
    };
    assert_eq!(parse_udp_header(&bytes), Ok((EMPTY_SLICE, expectation)));
}

#[test]
fn udp_header_incomplete() {
    let bytes = [0x00, 0x12, 0x11, 0x11, 0x00];
    assert_eq!(parse_udp_header(&bytes), Err(ParseError::Incomplete(3)));
}

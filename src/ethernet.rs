//! Ethernet II frame headers, with or without one 802.1Q VLAN tag.

use vstd::prelude::*;
use crate::wire::{be16, be_bytes, consumes, incomplete, read_be16, rest_after, ParseError};

verus! {

/// Length in bytes of an untagged Ethernet header.
pub const ETHERNET_HEADER_LEN: usize = 14;

/// Length in bytes of an Ethernet header with one VLAN tag.
pub const VLAN_ETHERNET_HEADER_LEN: usize = 18;

/// The ethertype that marks an 802.1Q VLAN tag.
pub const VLAN_TAG: u16 = 0x8100;

/// A MAC address, as its six bytes.
#[derive(Clone, Copy, Debug, PartialEq, Eq, Hash)]
pub struct MacAddress(pub [u8; 6]);

/// The payload protocol of an Ethernet frame: a named ethertype, or the raw
/// 16-bit code.
#[derive(Clone, Copy, Debug, PartialEq, Eq)]
pub enum EtherType {
    LANMIN,
    LANMAX,
    IPv4,
    ARP,
    WOL,
    TRILL,
    DECnet,
    RARP,
    AppleTalk,
    AARP,
    VLAN,
    IPX,
    Qnet,
    IPv6,
    FlowControl,
    CobraNet,
    MPLSuni,
    MPLSmulti,
    PPPoEdiscovery,
    PPPoEsession,
    HomePlug,
    EAPOL,
    PROFINET,
    HyperSCSI,
    ATAOE,
    EtherCAT,
    QinQ,
    Powerlink,
    GOOSE,
    GSE,
    LLDP,
    SERCOS,
    HomePlugAV,
    MRP,
    MACsec,
    PBB,
    PTP,
    PRP,
    CFM,
    FCoE,
    FCoEi,
    RoCE,
    TTE,
    HSR,
    CTP,
    VLANdouble,
    Other(u16),
}

impl EtherType {
    /// The ethertype that the code `raw` stands for.
    pub open spec fn from_code(raw: u16) -> EtherType {
        match raw {
            0x002E => EtherType::LANMIN,
            0x05DC => EtherType::LANMAX,
            0x0800 => EtherType::IPv4,
            0x0806 => EtherType::ARP,
            0x0842 => EtherType::WOL,
            0x22F3 => EtherType::TRILL,
            0x6003 => EtherType::DECnet,
            0x8035 => EtherType::RARP,
            0x809B => EtherType::AppleTalk,
            0x80F3 => EtherType::AARP,
            0x8100 => EtherType::VLAN,
            0x8137 => EtherType::IPX,
            0x8204 => EtherType::Qnet,
            0x86DD => EtherType::IPv6,
            0x8808 => EtherType::FlowControl,
            0x8819 => EtherType::CobraNet,
            0x8847 => EtherType::MPLSuni,
            0x8848 => EtherType::MPLSmulti,
            0x8863 => EtherType::PPPoEdiscovery,
            0x8864 => EtherType::PPPoEsession,
            0x887B => EtherType::HomePlug,
            0x888E => EtherType::EAPOL,
            0x8892 => EtherType::PROFINET,
            0x889A => EtherType::HyperSCSI,
            0x88A2 => EtherType::ATAOE,
            0x88A4 => EtherType::EtherCAT,
            0x88A8 => EtherType::QinQ,
            0x88AB => EtherType::Powerlink,
            0x88B8 => EtherType::GOOSE,
            0x88B9 => EtherType::GSE,
            0x88CC => EtherType::LLDP,
            0x88CD => EtherType::SERCOS,
            0x88E1 => EtherType::HomePlugAV,
            0x88E3 => EtherType::MRP,
            0x88E5 => EtherType::MACsec,
            0x88E7 => EtherType::PBB,
            0x88F7 => EtherType::PTP,
            0x88FB => EtherType::PRP,
            0x8902 => EtherType::CFM,
            0x8906 => EtherType::FCoE,
            0x8914 => EtherType::FCoEi,
            0x8915 => EtherType::RoCE,
            0x891D => EtherType::TTE,
            0x892F => EtherType::HSR,
            0x9000 => EtherType::CTP,
            0x9100 => EtherType::VLANdouble,
            other => EtherType::Other(other),
        }
    }
}

impl From<u16> for EtherType {
    fn from(raw: u16) -> (r: Self) {
        match raw {
            0x002E => EtherType::LANMIN,
            0x05DC => EtherType::LANMAX,
            0x0800 => EtherType::IPv4,
            0x0806 => EtherType::ARP,
            0x0842 => EtherType::WOL,
            0x22F3 => EtherType::TRILL,
            0x6003 => EtherType::DECnet,
            0x8035 => EtherType::RARP,
            0x809B => EtherType::AppleTalk,
            0x80F3 => EtherType::AARP,
            0x8100 => EtherType::VLAN,
            0x8137 => EtherType::IPX,
            0x8204 => EtherType::Qnet,
            0x86DD => EtherType::IPv6,
            0x8808 => EtherType::FlowControl,
            0x8819 => EtherType::CobraNet,
            0x8847 => EtherType::MPLSuni,
            0x8848 => EtherType::MPLSmulti,
            0x8863 => EtherType::PPPoEdiscovery,
            0x8864 => EtherType::PPPoEsession,
            0x887B => EtherType::HomePlug,
            0x888E => EtherType::EAPOL,
            0x8892 => EtherType::PROFINET,
            0x889A => EtherType::HyperSCSI,
            0x88A2 => EtherType::ATAOE,
            0x88A4 => EtherType::EtherCAT,
            0x88A8 => EtherType::QinQ,
            0x88AB => EtherType::Powerlink,
            0x88B8 => EtherType::GOOSE,
            0x88B9 => EtherType::GSE,
            0x88CC => EtherType::LLDP,
            0x88CD => EtherType::SERCOS,
            0x88E1 => EtherType::HomePlugAV,
            0x88E3 => EtherType::MRP,
            0x88E5 => EtherType::MACsec,
            0x88E7 => EtherType::PBB,
            0x88F7 => EtherType::PTP,
            0x88FB => EtherType::PRP,
            0x8902 => EtherType::CFM,
            0x8906 => EtherType::FCoE,
            0x8914 => EtherType::FCoEi,
            0x8915 => EtherType::RoCE,
            0x891D => EtherType::TTE,
            0x892F => EtherType::HSR,
            0x9000 => EtherType::CTP,
            0x9100 => EtherType::VLANdouble,
            other => EtherType::Other(other),
        }
    }
}

impl vstd::std_specs::convert::FromSpecImpl<u16> for EtherType {
    open spec fn obeys_from_spec() -> bool {
        true
    }

    open spec fn from_spec(raw: u16) -> EtherType {
        EtherType::from_code(raw)
    }
}

#[derive(Clone, Copy, Debug, PartialEq, Eq)]
pub struct EthernetFrame {
    pub source_mac: MacAddress,
    pub dest_mac: MacAddress,
    pub ethertype: EtherType,
}

#[derive(Clone, Copy, Debug, PartialEq, Eq)]
pub struct VlanEthernetFrame {
    pub source_mac: MacAddress,
    pub dest_mac: MacAddress,
    /// The ethertype after the VLAN tag, if there is one.
    pub ethertype: EtherType,
    /// The 16 bits that follow the VLAN marker (priority and identifier), if
    /// the frame is tagged.
    pub vid: Option<u16>,
}

/// `f` holds the fields of the untagged Ethernet header at the start of `s`:
/// destination MAC, source MAC, ethertype.
pub open spec fn ethernet_frame_of(f: EthernetFrame, s: Seq<u8>) -> bool {
    &&& f.dest_mac.0@ == s.subrange(0, 6)
    &&& f.source_mac.0@ == s.subrange(6, 12)
    &&& f.ethertype == EtherType::from_code(be16(s, 12))
}

/// Whether the Ethernet header at the start of `s` carries a VLAN tag.
pub open spec fn is_vlan_tagged(s: Seq<u8>) -> bool {
    s.len() >= ETHERNET_HEADER_LEN && be16(s, 12) == VLAN_TAG
}

/// The length of the Ethernet header at the start of `s`, as far as `s`
/// shows it: 18 bytes where a VLAN tag is seen, 14 otherwise.
pub open spec fn vlan_header_len(s: Seq<u8>) -> nat {
    if is_vlan_tagged(s) {
        VLAN_ETHERNET_HEADER_LEN as nat
    } else {
        ETHERNET_HEADER_LEN as nat
    }
}

/// `f` holds the fields of the Ethernet header at the start of `s`, with one
/// level of VLAN tag taken off: a second tag stays as the reported ethertype.
pub open spec fn vlan_ethernet_frame_of(f: VlanEthernetFrame, s: Seq<u8>) -> bool {
    &&& f.dest_mac.0@ == s.subrange(0, 6)
    &&& f.source_mac.0@ == s.subrange(6, 12)
    &&& if is_vlan_tagged(s) {
        &&& f.vid == Some(be16(s, 14))
        &&& f.ethertype == EtherType::from_code(be16(s, 16))
    } else {
        &&& f.vid is None
        &&& f.ethertype == EtherType::from_code(be16(s, 12))
    }
}

/// The MAC address held by the six bytes at `at`.
pub(crate) fn mac_at(input: &[u8], at: usize) -> (r: MacAddress)
    requires
        at + 6 <= input.len(),
    ensures
        r.0@ == input@.subrange(at as int, at + 6),
{
    let r = MacAddress(
        [input[at], input[at + 1], input[at + 2], input[at + 3], input[at + 4], input[at + 5]],
    );
    assert(r.0@ =~= input@.subrange(at as int, at + 6));
    r
}

/// The ethertype held by the two bytes at `at`.
fn ethertype_at(input: &[u8], at: usize) -> (r: EtherType)
    requires
        at + 2 <= input.len(),
    ensures
        r == EtherType::from_code(be16(input@, at as int)),
{
    EtherType::from(read_be16(input, at))
}

/// Reads the MAC address at the start of `input`.
pub fn mac_address(input: &[u8]) -> (r: Result<(&[u8], MacAddress), ParseError>)
    ensures
        consumes(r, input@, 6),
        r matches Ok((_, mac)) ==> mac.0@ == input@.take(6),
{
    if input.len() < 6 {
        return Err(incomplete(6, input.len()));
    }
    Ok((rest_after(input, 6), mac_at(input, 0)))
}

/// Reads the ethertype at the start of `input`.
pub fn parse_ethertype(input: &[u8]) -> (r: Result<(&[u8], EtherType), ParseError>)
    ensures
        consumes(r, input@, 2),
        r matches Ok((_, ethertype)) ==> ethertype == EtherType::from_code(be16(input@, 0)),
{
    if input.len() < 2 {
        return Err(incomplete(2, input.len()));
    }
    Ok((rest_after(input, 2), ethertype_at(input, 0)))
}

/// Decodes the untagged Ethernet header at the start of `input`: exactly 14
/// bytes, whatever the ethertype.
pub fn parse_ethernet_frame(input: &[u8]) -> (r: Result<(&[u8], EthernetFrame), ParseError>)
    ensures
        consumes(r, input@, ETHERNET_HEADER_LEN as nat),
        r matches Ok((_, f)) ==> ethernet_frame_of(f, input@),
{
    if input.len() < ETHERNET_HEADER_LEN {
        return Err(incomplete(ETHERNET_HEADER_LEN, input.len()));
    }
    let frame = EthernetFrame {
        dest_mac: mac_at(input, 0),
        source_mac: mac_at(input, 6),
        ethertype: ethertype_at(input, 12),
    };
    Ok((rest_after(input, ETHERNET_HEADER_LEN), frame))
}

/// Decodes the Ethernet header at the start of `input`, tagged or not.
///
/// Where the ethertype is the VLAN marker, the 16-bit tag and the ethertype
/// after it are read too. Only one tag is taken off: a frame tagged twice
/// reports the marker of its inner tag as its ethertype.
pub fn parse_vlan_ethernet_frame(input: &[u8]) -> (r: Result<
    (&[u8], VlanEthernetFrame),
    ParseError,
>)
    ensures
        consumes(r, input@, vlan_header_len(input@)),
        r matches Ok((_, f)) ==> vlan_ethernet_frame_of(f, input@),
{
    let (rest, frame) = match parse_ethernet_frame(input) {
        Ok(decoded) => decoded,
        Err(e) => return Err(e),
    };
    let code = read_be16(input, 12);
    if code != VLAN_TAG {
        let untagged = VlanEthernetFrame {
            source_mac: frame.source_mac,
            dest_mac: frame.dest_mac,
            ethertype: frame.ethertype,
            vid: None,
        };
        return Ok((rest, untagged));
    }
    if input.len() < VLAN_ETHERNET_HEADER_LEN {
        return Err(incomplete(VLAN_ETHERNET_HEADER_LEN, input.len()));
    }
    let tagged = VlanEthernetFrame {
        source_mac: frame.source_mac,
        dest_mac: frame.dest_mac,
        ethertype: ethertype_at(input, 16),
        vid: Some(read_be16(input, 14)),
    };
    Ok((rest_after(input, VLAN_ETHERNET_HEADER_LEN), tagged))
}


/// Decoding the same bytes twice gives the same untagged frame.
pub proof fn ethernet_frame_is_determined(a: EthernetFrame, b: EthernetFrame, s: Seq<u8>)
    requires
        ethernet_frame_of(a, s),
        ethernet_frame_of(b, s),
    ensures
        a == b,
{
    assert(a.dest_mac.0 == b.dest_mac.0);
    assert(a.source_mac.0 == b.source_mac.0);
}

/// Decoding the same bytes twice gives the same frame, tagged or not.
pub proof fn vlan_ethernet_frame_is_determined(
    a: VlanEthernetFrame,
    b: VlanEthernetFrame,
    s: Seq<u8>,
)
    requires
        vlan_ethernet_frame_of(a, s),
        vlan_ethernet_frame_of(b, s),
    ensures
        a == b,
{
    assert(a.dest_mac.0 == b.dest_mac.0);
    assert(a.source_mac.0 == b.source_mac.0);
}

/// Cutting a whole Ethernet header short, anywhere before its end, leaves a
/// header length that the bytes left do not reach: the decoder asks for
/// more, and for no more than the whole header had.
pub proof fn truncated_vlan_frame_is_short(s: Seq<u8>, k: nat)
    requires
        vlan_header_len(s) <= s.len(),
        k < vlan_header_len(s),
    ensures
        k < vlan_header_len(s.take(k as int)) <= vlan_header_len(s),
{
}

/// A frame whose ethertype is the VLAN marker decodes to the 16 bits after
/// the marker as its `vid` and to the ethertype after those as its
/// `ethertype`; the header is 18 bytes long.
pub proof fn tagged_frame_is_unwrapped(
    dst: Seq<u8>,
    src: Seq<u8>,
    vid: u16,
    inner: u16,
    payload: Seq<u8>,
    f: VlanEthernetFrame,
)
    requires
        dst.len() == 6,
        src.len() == 6,
        vlan_ethernet_frame_of(
            f,
            dst + src + be_bytes(VLAN_TAG) + be_bytes(vid) + be_bytes(inner) + payload,
        ),
    ensures
        ({
            let s = dst + src + be_bytes(VLAN_TAG) + be_bytes(vid) + be_bytes(inner) + payload;
            &&& vlan_header_len(s) == VLAN_ETHERNET_HEADER_LEN
            &&& s.skip(VLAN_ETHERNET_HEADER_LEN as int) == payload
        }),
        f.dest_mac.0@ == dst,
        f.source_mac.0@ == src,
        f.vid == Some(vid),
        f.ethertype == EtherType::from_code(inner),
{
    let s = dst + src + be_bytes(VLAN_TAG) + be_bytes(vid) + be_bytes(inner) + payload;
    assert(s.subrange(0, 6) =~= dst);
    assert(s.subrange(6, 12) =~= src);
    assert(s.skip(VLAN_ETHERNET_HEADER_LEN as int) =~= payload);
    assert(be16(s, 12) == VLAN_TAG);
    assert(be16(s, 14) == vid);
    assert(be16(s, 16) == inner);
}

/// A frame whose ethertype is not the VLAN marker decodes to no `vid` and to
/// that ethertype; the header is 14 bytes long.
pub proof fn untagged_frame_has_no_vid(
    dst: Seq<u8>,
    src: Seq<u8>,
    ethertype: u16,
    payload: Seq<u8>,
    f: VlanEthernetFrame,
)
    requires
        dst.len() == 6,
        src.len() == 6,
        ethertype != VLAN_TAG,
        vlan_ethernet_frame_of(f, dst + src + be_bytes(ethertype) + payload),
    ensures
        ({
            let s = dst + src + be_bytes(ethertype) + payload;
            &&& vlan_header_len(s) == ETHERNET_HEADER_LEN
            &&& s.skip(ETHERNET_HEADER_LEN as int) == payload
        }),
        f.dest_mac.0@ == dst,
        f.source_mac.0@ == src,
        f.vid is None,
        f.ethertype == EtherType::from_code(ethertype),
{
    let s = dst + src + be_bytes(ethertype) + payload;
    assert(s.subrange(0, 6) =~= dst);
    assert(s.subrange(6, 12) =~= src);
    assert(s.skip(ETHERNET_HEADER_LEN as int) =~= payload);
    assert(be16(s, 12) == ethertype);
}

} // verus!

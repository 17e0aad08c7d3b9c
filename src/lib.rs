//! Decoders for fixed-format network protocol headers: Ethernet (with an
//! optional 802.1Q tag), ARP, IPv4, IPv6, ICMP, TCP (with options) and UDP.
//!
//! Every decoder takes the bytes that start at a header boundary and returns
//! the bytes after the header together with the decoded record, or says how
//! many more bytes it needs.

pub mod wire;
pub mod arp;
pub mod ethernet;
pub mod icmp;
pub mod ip;
pub mod ipv4;
pub mod ipv6;
pub mod tcp;
pub mod udp;

use arp_scan::error::ScanError;
use arp_scan::frame::{
    build_arp_request, parse_arp_message, parse_ethernet_header, ARP_FRAME_LEN, ARP_OP_REQUEST,
    ETHERNET_HEADER_LEN, ETHERTYPE_ARP, ETHERTYPE_IPV4,
};
use arp_scan::iface::{IpAssignment, Ipv4Address, MacAddress, NetInterface, FLAG_UP};

fn eth0() -> NetInterface {
    NetInterface {
        name: String::from("eth0"),
        mac: Some(MacAddress(0xaa, 0xbb, 0xcc, 0xdd, 0xee, 0xff)),
        ips: vec![IpAssignment::V4(Ipv4Address(192, 168, 1, 10))],
        flags: FLAG_UP,
    }
}

#[test]
fn builds_the_expected_bytes_for_eth0() {
    let iface = eth0();
    let frame = build_arp_request(&iface, Ipv4Address(192, 168, 1, 10)).unwrap();
    let bytes = frame.to_bytes();
    let expected: Vec<u8> = vec![
        // Ethernet: broadcast destination, source MAC, ARP ethertype
        0xff, 0xff, 0xff, 0xff, 0xff, 0xff, 0xaa, 0xbb, 0xcc, 0xdd, 0xee, 0xff, 0x08, 0x06,
        // ARP: Ethernet/IPv4, lengths 6/4, operation request
        0x00, 0x01, 0x08, 0x00, 0x06, 0x04, 0x00, 0x01,
        // sender hardware and protocol address
        0xaa, 0xbb, 0xcc, 0xdd, 0xee, 0xff, 192, 168, 1, 10,
        // target hardware and protocol address, unresolved
        0x00, 0x00, 0x00, 0x00, 0x00, 0x00, 0, 0, 0, 0,
    ];
    assert_eq!(bytes.len(), ARP_FRAME_LEN);
    assert_eq!(bytes, expected);
}

#[test]
fn build_is_deterministic() {
    let iface = eth0();
    let first = build_arp_request(&iface, Ipv4Address(10, 0, 0, 7)).unwrap().to_bytes();
    let second = build_arp_request(&iface, Ipv4Address(10, 0, 0, 7)).unwrap().to_bytes();
    assert_eq!(first, second);
}

#[test]
fn built_frame_decodes_back() {
    let iface = eth0();
    let source = Ipv4Address(192, 168, 1, 10);
    let bytes = build_arp_request(&iface, source).unwrap().to_bytes();

    let header = parse_ethernet_header(&bytes).unwrap();
    assert_eq!(header.ethertype, ETHERTYPE_ARP);
    assert_eq!(header.destination, MacAddress(0xff, 0xff, 0xff, 0xff, 0xff, 0xff));
    assert_eq!(header.source, MacAddress(0xaa, 0xbb, 0xcc, 0xdd, 0xee, 0xff));

    let message = parse_arp_message(&bytes, ETHERNET_HEADER_LEN).unwrap();
    assert_eq!(message.operation, ARP_OP_REQUEST);
    assert_eq!(message.hardware_len, 6);
    assert_eq!(message.protocol_len, 4);
    assert_eq!(message.protocol_type, ETHERTYPE_IPV4);
    assert_eq!(message.sender_hw, MacAddress(0xaa, 0xbb, 0xcc, 0xdd, 0xee, 0xff));
    assert_eq!(message.sender_proto, source);
    assert_eq!(message.target_hw, MacAddress(0, 0, 0, 0, 0, 0));
    assert_eq!(message.target_proto, Ipv4Address(0, 0, 0, 0));
}

#[test]
fn build_fails_without_hardware_address() {
    let iface = NetInterface {
        name: String::from("tun0"),
        mac: None,
        ips: vec![IpAssignment::V4(Ipv4Address(10, 8, 0, 1))],
        flags: FLAG_UP,
    };
    let r = build_arp_request(&iface, Ipv4Address(10, 8, 0, 1));
    assert_eq!(r.err(), Some(ScanError::ConfigurationError));
}

#[test]
fn short_frames_do_not_parse() {
    let short: Vec<u8> = vec![0xff; 13];
    assert!(parse_ethernet_header(&short).is_none());
    let bytes: Vec<u8> = vec![0u8; 41];
    assert!(parse_arp_message(&bytes, ETHERNET_HEADER_LEN).is_none());
}

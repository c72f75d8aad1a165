//! The wire format: Ethernet header and ARP message layout, encoded and
//! decoded field by field in network (big-endian) byte order, and the
//! builder for the outbound broadcast ARP request.

use vstd::prelude::*;
use crate::error::ScanError;
use crate::iface::{Ipv4Address, MacAddress, NetInterface};

verus! {

/// Length of the fixed Ethernet header.
pub const ETHERNET_HEADER_LEN: usize = 14;

/// Length of one ARP message.
pub const ARP_MESSAGE_LEN: usize = 28;

/// Total length of an Ethernet frame carrying one ARP message.
pub const ARP_FRAME_LEN: usize = 42;

/// Ethertype of ARP.
pub const ETHERTYPE_ARP: u16 = 0x0806;

/// Ethertype of IPv4, doubling as the ARP protocol-type code.
pub const ETHERTYPE_IPV4: u16 = 0x0800;

/// ARP hardware-type code of Ethernet.
pub const ARP_HTYPE_ETHERNET: u16 = 1;

/// Width of a hardware address in an Ethernet ARP message.
pub const ARP_HW_ADDR_LEN: u8 = 6;

/// Width of a protocol address in an IPv4 ARP message.
pub const ARP_PROTO_ADDR_LEN: u8 = 4;

/// ARP operation code of a request.
pub const ARP_OP_REQUEST: u16 = 1;

/// ARP operation code of a reply.
pub const ARP_OP_REPLY: u16 = 2;

/// The fixed 14-byte Ethernet header.
#[derive(Clone, Copy, PartialEq, Eq, Structural, Debug)]
pub struct EthernetHeader {
    pub destination: MacAddress,
    pub source: MacAddress,
    pub ethertype: u16,
}

/// The fields of one ARP message, in wire order.
#[derive(Clone, Copy, PartialEq, Eq, Structural, Debug)]
pub struct ArpMessage {
    pub hardware_type: u16,
    pub protocol_type: u16,
    pub hardware_len: u8,
    pub protocol_len: u8,
    pub operation: u16,
    pub sender_hw: MacAddress,
    pub sender_proto: Ipv4Address,
    pub target_hw: MacAddress,
    pub target_proto: Ipv4Address,
}

impl ArpMessage {
    /// Well-formedness of an Ethernet/IPv4 ARP message: the address-length
    /// fields carry the fixed widths.  Messages violating this are
    /// discarded, never mutated.
    pub open spec fn has_standard_lengths(self) -> bool {
        self.hardware_len == ARP_HW_ADDR_LEN && self.protocol_len == ARP_PROTO_ADDR_LEN
    }
}

/// Big-endian 16-bit value read from two bytes.
pub open spec fn spec_be16(hi: u8, lo: u8) -> u16 {
    (hi as int * 256 + lo as int) as u16
}

/// The 14 header bytes in wire order.
pub open spec fn spec_encode_ethernet_header(h: EthernetHeader) -> Seq<u8> {
    seq![
        h.destination.0,
        h.destination.1,
        h.destination.2,
        h.destination.3,
        h.destination.4,
        h.destination.5,
        h.source.0,
        h.source.1,
        h.source.2,
        h.source.3,
        h.source.4,
        h.source.5,
        (h.ethertype / 256) as u8,
        (h.ethertype % 256) as u8,
    ]
}

/// The 28 message bytes in wire order.
pub open spec fn spec_encode_arp_message(m: ArpMessage) -> Seq<u8> {
    seq![
        (m.hardware_type / 256) as u8,
        (m.hardware_type % 256) as u8,
        (m.protocol_type / 256) as u8,
        (m.protocol_type % 256) as u8,
        m.hardware_len,
        m.protocol_len,
        (m.operation / 256) as u8,
        (m.operation % 256) as u8,
        m.sender_hw.0,
        m.sender_hw.1,
        m.sender_hw.2,
        m.sender_hw.3,
        m.sender_hw.4,
        m.sender_hw.5,
        m.sender_proto.0,
        m.sender_proto.1,
        m.sender_proto.2,
        m.sender_proto.3,
        m.target_hw.0,
        m.target_hw.1,
        m.target_hw.2,
        m.target_hw.3,
        m.target_hw.4,
        m.target_hw.5,
        m.target_proto.0,
        m.target_proto.1,
        m.target_proto.2,
        m.target_proto.3,
    ]
}

/// The header read back from the first 14 bytes of a raw frame, or `None`
/// on a frame too short to hold one.
pub open spec fn spec_parse_ethernet_header(raw: Seq<u8>) -> Option<EthernetHeader> {
    if raw.len() < ETHERNET_HEADER_LEN {
        None
    } else {
        Some(
            EthernetHeader {
                destination: MacAddress(raw[0], raw[1], raw[2], raw[3], raw[4], raw[5]),
                source: MacAddress(raw[6], raw[7], raw[8], raw[9], raw[10], raw[11]),
                ethertype: spec_be16(raw[12], raw[13]),
            },
        )
    }
}

/// The message read back from the first 28 payload bytes, or `None` on a
/// truncated payload.  Trailing bytes (link-layer padding) are ignored.
pub open spec fn spec_parse_arp_message(payload: Seq<u8>) -> Option<ArpMessage> {
    if payload.len() < ARP_MESSAGE_LEN {
        None
    } else {
        Some(
            ArpMessage {
                hardware_type: spec_be16(payload[0], payload[1]),
                protocol_type: spec_be16(payload[2], payload[3]),
                hardware_len: payload[4],
                protocol_len: payload[5],
                operation: spec_be16(payload[6], payload[7]),
                sender_hw: MacAddress(
                    payload[8],
                    payload[9],
                    payload[10],
                    payload[11],
                    payload[12],
                    payload[13],
                ),
                sender_proto: Ipv4Address(payload[14], payload[15], payload[16], payload[17]),
                target_hw: MacAddress(
                    payload[18],
                    payload[19],
                    payload[20],
                    payload[21],
                    payload[22],
                    payload[23],
                ),
                target_proto: Ipv4Address(payload[24], payload[25], payload[26], payload[27]),
            },
        )
    }
}

/// An Ethernet frame: the fixed header followed by its payload bytes.
#[derive(Debug)]
pub struct EthernetFrame {
    pub header: EthernetHeader,
    pub payload: Vec<u8>,
}

impl EthernetFrame {
    /// The frame on the wire: header bytes then payload.
    pub open spec fn spec_bytes(self) -> Seq<u8> {
        spec_encode_ethernet_header(self.header) + self.payload@
    }

    /// Invariant of an ARP carrier: a 28-byte payload, 42 bytes in all.
    pub open spec fn is_arp_carrier(self) -> bool {
        self.payload@.len() == ARP_MESSAGE_LEN
    }

    /// Serialises the frame field by field.
    pub fn to_bytes(&self) -> (r: Vec<u8>)
        ensures
            r@ == self.spec_bytes(),
    {
        let mut r: Vec<u8> = Vec::new();
        r.push(self.header.destination.0);
        r.push(self.header.destination.1);
        r.push(self.header.destination.2);
        r.push(self.header.destination.3);
        r.push(self.header.destination.4);
        r.push(self.header.destination.5);
        r.push(self.header.source.0);
        r.push(self.header.source.1);
        r.push(self.header.source.2);
        r.push(self.header.source.3);
        r.push(self.header.source.4);
        r.push(self.header.source.5);
        r.push((self.header.ethertype / 256) as u8);
        r.push((self.header.ethertype % 256) as u8);
        let mut i: usize = 0;
        while i < self.payload.len()
            invariant
                0 <= i <= self.payload@.len(),
                r@ == spec_encode_ethernet_header(self.header) + self.payload@.take(i as int),
            decreases self.payload@.len() - i,
        {
            r.push(self.payload[i]);
            proof {
                assert(spec_encode_ethernet_header(self.header) + self.payload@.take(i + 1 as int)
                    =~= (spec_encode_ethernet_header(self.header) + self.payload@.take(i as int)).push(
                    self.payload@[i as int],
                ));
            }
            i = i + 1;
        }
        proof {
            assert(self.payload@.take(self.payload@.len() as int) =~= self.payload@);
        }
        r
    }
}

/// The header of the outbound request: broadcast destination, the scanning
/// interface's own MAC as source, ARP ethertype.
pub open spec fn spec_arp_request_header(mac: MacAddress) -> EthernetHeader {
    EthernetHeader {
        destination: MacAddress::spec_broadcast(),
        source: mac,
        ethertype: ETHERTYPE_ARP,
    }
}

/// The message of the outbound request: a broadcast probe whose target
/// hardware and protocol addresses are deliberately left all-zero in this
/// single-send design.
pub open spec fn spec_arp_request_message(mac: MacAddress, source_ip: Ipv4Address) -> ArpMessage {
    ArpMessage {
        hardware_type: ARP_HTYPE_ETHERNET,
        protocol_type: ETHERTYPE_IPV4,
        hardware_len: ARP_HW_ADDR_LEN,
        protocol_len: ARP_PROTO_ADDR_LEN,
        operation: ARP_OP_REQUEST,
        sender_hw: mac,
        sender_proto: source_ip,
        target_hw: MacAddress::spec_zero(),
        target_proto: Ipv4Address::spec_zero(),
    }
}

/// The 42 bytes of the outbound request frame.
pub open spec fn spec_arp_request_frame_bytes(mac: MacAddress, source_ip: Ipv4Address) -> Seq<
    u8,
> {
    spec_encode_ethernet_header(spec_arp_request_header(mac)) + spec_encode_arp_message(
        spec_arp_request_message(mac, source_ip),
    )
}

/// Encodes one ARP message field by field.
pub fn encode_arp_message(m: &ArpMessage) -> (r: Vec<u8>)
    ensures
        r@ == spec_encode_arp_message(*m),
{
    let mut r: Vec<u8> = Vec::new();
    r.push((m.hardware_type / 256) as u8);
    r.push((m.hardware_type % 256) as u8);
    r.push((m.protocol_type / 256) as u8);
    r.push((m.protocol_type % 256) as u8);
    r.push(m.hardware_len);
    r.push(m.protocol_len);
    r.push((m.operation / 256) as u8);
    r.push((m.operation % 256) as u8);
    r.push(m.sender_hw.0);
    r.push(m.sender_hw.1);
    r.push(m.sender_hw.2);
    r.push(m.sender_hw.3);
    r.push(m.sender_hw.4);
    r.push(m.sender_hw.5);
    r.push(m.sender_proto.0);
    r.push(m.sender_proto.1);
    r.push(m.sender_proto.2);
    r.push(m.sender_proto.3);
    r.push(m.target_hw.0);
    r.push(m.target_hw.1);
    r.push(m.target_hw.2);
    r.push(m.target_hw.3);
    r.push(m.target_hw.4);
    r.push(m.target_hw.5);
    r.push(m.target_proto.0);
    r.push(m.target_proto.1);
    r.push(m.target_proto.2);
    r.push(m.target_proto.3);
    proof {
        assert(r@ =~= spec_encode_arp_message(*m));
    }
    r
}

/// Builds the outbound broadcast ARP request for one interface.
///
/// The interface must carry a hardware address; without one the scan
/// cannot proceed and the builder reports the configuration error rather
/// than construct anything.
pub fn build_arp_request(iface: &NetInterface, source_ip: Ipv4Address) -> (r: Result<
    EthernetFrame,
    ScanError,
>)
    ensures
        iface.mac is Some ==> r is Ok,
        r is Ok ==> {
            let frame = r->Ok_0;
            &&& iface.mac is Some
            &&& frame.header == spec_arp_request_header(iface.mac->0)
            &&& frame.payload@ == spec_encode_arp_message(
                spec_arp_request_message(iface.mac->0, source_ip),
            )
            &&& frame.is_arp_carrier()
            &&& frame.spec_bytes() == spec_arp_request_frame_bytes(iface.mac->0, source_ip)
            &&& frame.spec_bytes().len() == ARP_FRAME_LEN
        },
        r is Err <==> iface.mac is None,
        r is Err ==> r->Err_0 == ScanError::ConfigurationError,
{
    match iface.mac {
        None => Err(ScanError::ConfigurationError),
        Some(mac) => {
            let message = ArpMessage {
                hardware_type: ARP_HTYPE_ETHERNET,
                protocol_type: ETHERTYPE_IPV4,
                hardware_len: ARP_HW_ADDR_LEN,
                protocol_len: ARP_PROTO_ADDR_LEN,
                operation: ARP_OP_REQUEST,
                sender_hw: mac,
                sender_proto: source_ip,
                target_hw: MacAddress::zero(),
                target_proto: Ipv4Address::zero(),
            };
            let payload = encode_arp_message(&message);
            Ok(
                EthernetFrame {
                    header: EthernetHeader {
                        destination: MacAddress::broadcast(),
                        source: mac,
                        ethertype: ETHERTYPE_ARP,
                    },
                    payload,
                },
            )
        },
    }
}

proof fn lemma_be16_split_round_trip(v: u16)
    ensures
        spec_be16((v / 256) as u8, (v % 256) as u8) == v,
{
    assert(v / 256 <= 255);
    assert(v % 256 <= 255);
    assert((v / 256) * 256 + v % 256 == v) by {
        vstd::arithmetic::div_mod::lemma_fundamental_div_mod(v as int, 256);
    }
}

/// Law: reading an encoded ARP message back yields the message itself.
pub proof fn lemma_arp_message_round_trip(m: ArpMessage)
    ensures
        spec_parse_arp_message(spec_encode_arp_message(m)) == Some(m),
{
    lemma_be16_split_round_trip(m.hardware_type);
    lemma_be16_split_round_trip(m.protocol_type);
    lemma_be16_split_round_trip(m.operation);
    assert(spec_parse_arp_message(spec_encode_arp_message(m))->Some_0 == m);
}

/// Law: reading the header back off an encoded frame yields the header
/// itself, and what follows it is exactly the payload.
pub proof fn lemma_ethernet_header_round_trip(h: EthernetHeader, payload: Seq<u8>)
    ensures
        spec_parse_ethernet_header(spec_encode_ethernet_header(h) + payload) == Some(h),
        (spec_encode_ethernet_header(h) + payload).skip(ETHERNET_HEADER_LEN as int) == payload,
{
    lemma_be16_split_round_trip(h.ethertype);
    let raw = spec_encode_ethernet_header(h) + payload;
    assert(spec_parse_ethernet_header(raw)->Some_0 == h);
    assert(raw.skip(ETHERNET_HEADER_LEN as int) =~= payload);
}

/// Law: the built request frame decodes back exactly.  Its 42 bytes yield
/// an Ethernet header with broadcast destination, the builder's MAC as
/// source and the ARP ethertype; the payload yields a request-operation
/// message with standard address widths, the builder's MAC and IPv4 as
/// sender, and an all-zero target.
pub proof fn lemma_arp_request_round_trip(mac: MacAddress, source_ip: Ipv4Address)
    ensures
        spec_arp_request_frame_bytes(mac, source_ip).len() == ARP_FRAME_LEN,
        spec_parse_ethernet_header(spec_arp_request_frame_bytes(mac, source_ip)) == Some(
            spec_arp_request_header(mac),
        ),
        spec_parse_arp_message(
            spec_arp_request_frame_bytes(mac, source_ip).skip(ETHERNET_HEADER_LEN as int),
        ) == Some(spec_arp_request_message(mac, source_ip)),
        spec_arp_request_message(mac, source_ip).has_standard_lengths(),
        spec_arp_request_message(mac, source_ip).operation == ARP_OP_REQUEST,
{
    lemma_ethernet_header_round_trip(
        spec_arp_request_header(mac),
        spec_encode_arp_message(spec_arp_request_message(mac, source_ip)),
    );
    lemma_arp_message_round_trip(spec_arp_request_message(mac, source_ip));
}

/// Reads the Ethernet header off a raw frame.
pub fn parse_ethernet_header(raw: &Vec<u8>) -> (r: Option<EthernetHeader>)
    ensures
        r == spec_parse_ethernet_header(raw@),
{
    if raw.len() < ETHERNET_HEADER_LEN {
        None
    } else {
        Some(
            EthernetHeader {
                destination: MacAddress(raw[0], raw[1], raw[2], raw[3], raw[4], raw[5]),
                source: MacAddress(raw[6], raw[7], raw[8], raw[9], raw[10], raw[11]),
                ethertype: (raw[12] as u16) * 256 + (raw[13] as u16),
            },
        )
    }
}

/// Reads one ARP message from the bytes of `raw` at `offset` onwards.
pub fn parse_arp_message(raw: &Vec<u8>, offset: usize) -> (r: Option<ArpMessage>)
    requires
        offset <= raw@.len(),
    ensures
        r == spec_parse_arp_message(raw@.skip(offset as int)),
{
    if raw.len() - offset < ARP_MESSAGE_LEN {
        None
    } else {
        let m = ArpMessage {
            hardware_type: (raw[offset] as u16) * 256 + (raw[offset + 1] as u16),
            protocol_type: (raw[offset + 2] as u16) * 256 + (raw[offset + 3] as u16),
            hardware_len: raw[offset + 4],
            protocol_len: raw[offset + 5],
            operation: (raw[offset + 6] as u16) * 256 + (raw[offset + 7] as u16),
            sender_hw: MacAddress(
                raw[offset + 8],
                raw[offset + 9],
                raw[offset + 10],
                raw[offset + 11],
                raw[offset + 12],
                raw[offset + 13],
            ),
            sender_proto: Ipv4Address(
                raw[offset + 14],
                raw[offset + 15],
                raw[offset + 16],
                raw[offset + 17],
            ),
            target_hw: MacAddress(
                raw[offset + 18],
                raw[offset + 19],
                raw[offset + 20],
                raw[offset + 21],
                raw[offset + 22],
                raw[offset + 23],
            ),
            target_proto: Ipv4Address(
                raw[offset + 24],
                raw[offset + 25],
                raw[offset + 26],
                raw[offset + 27],
            ),
        };
        proof {
            let p = raw@.skip(offset as int);
            assert forall|k: int| 0 <= k < ARP_MESSAGE_LEN implies p[k] == raw@[offset + k] by {}
        }
        Some(m)
    }
}

} // verus!

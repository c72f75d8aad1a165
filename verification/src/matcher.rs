//! The reply matcher: decides whether a received raw frame is an ARP reply
//! relevant to the outstanding request, and extracts the sender pair.
//!
//! Correlation rule, stated once and deliberately: the engine sends a
//! single broadcast request with an unresolved target, so every well-formed
//! ARP reply arriving on the scan's own channel answers it and is reported.
//! The matcher inspects the frame alone; it does not compare the sender
//! against the scanning interface's own address.

use vstd::prelude::*;
use crate::frame::{
    ARP_HW_ADDR_LEN, ARP_OP_REPLY, ARP_PROTO_ADDR_LEN, ETHERNET_HEADER_LEN, ETHERTYPE_ARP,
    parse_arp_message, parse_ethernet_header, spec_parse_arp_message, spec_parse_ethernet_header,
};
use crate::iface::{Ipv4Address, MacAddress};

verus! {

/// The sender pair of a well-formed ARP reply, or `None` on anything else:
/// a frame too short for an Ethernet header, a non-ARP ethertype, a
/// truncated ARP payload, a non-reply operation, or non-standard address
/// widths.  Malformed traffic is silently ignored, never an error.
pub open spec fn spec_extract_reply(raw: Seq<u8>) -> Option<(MacAddress, Ipv4Address)> {
    match spec_parse_ethernet_header(raw) {
        None => None,
        Some(header) => if header.ethertype != ETHERTYPE_ARP {
            None
        } else {
            match spec_parse_arp_message(raw.skip(ETHERNET_HEADER_LEN as int)) {
                None => None,
                Some(message) => if message.operation == ARP_OP_REPLY
                    && message.has_standard_lengths() {
                    Some((message.sender_hw, message.sender_proto))
                } else {
                    None
                },
            }
        },
    }
}

/// Examines one received raw frame.
pub fn try_extract_reply(raw: &Vec<u8>) -> (r: Option<(MacAddress, Ipv4Address)>)
    ensures
        r == spec_extract_reply(raw@),
{
    let header = match parse_ethernet_header(raw) {
        None => {
            return None;
        },
        Some(h) => h,
    };
    if header.ethertype != ETHERTYPE_ARP {
        return None;
    }
    let message = match parse_arp_message(raw, ETHERNET_HEADER_LEN) {
        None => {
            return None;
        },
        Some(m) => m,
    };
    if message.operation == ARP_OP_REPLY && message.hardware_len == ARP_HW_ADDR_LEN
        && message.protocol_len == ARP_PROTO_ADDR_LEN {
        Some((message.sender_hw, message.sender_proto))
    } else {
        None
    }
}

/// Law: the matcher accepts a frame exactly when its ethertype is ARP, its
/// payload parses, and the message is a reply with standard address widths;
/// what it returns is that message's sender pair.
pub proof fn lemma_matcher_exact(raw: Seq<u8>)
    ensures
        spec_extract_reply(raw) is Some <==> {
            &&& spec_parse_ethernet_header(raw) is Some
            &&& spec_parse_ethernet_header(raw)->Some_0.ethertype == ETHERTYPE_ARP
            &&& spec_parse_arp_message(raw.skip(ETHERNET_HEADER_LEN as int)) is Some
            &&& spec_parse_arp_message(raw.skip(ETHERNET_HEADER_LEN as int))->Some_0.operation
                == ARP_OP_REPLY
            &&& spec_parse_arp_message(
                raw.skip(ETHERNET_HEADER_LEN as int),
            )->Some_0.has_standard_lengths()
        },
        spec_extract_reply(raw) is Some ==> spec_extract_reply(raw)->Some_0 == (
            spec_parse_arp_message(raw.skip(ETHERNET_HEADER_LEN as int))->Some_0.sender_hw,
            spec_parse_arp_message(raw.skip(ETHERNET_HEADER_LEN as int))->Some_0.sender_proto,
        ),
{
}

} // verus!

//! The engine's model of a host network adapter: hardware and protocol
//! addresses, the interface flag bitfield, and the snapshot type that the
//! rest of the engine borrows for the duration of a scan.

use vstd::prelude::*;

verus! {

/// A 48-bit Ethernet hardware address, stored as six octets in
/// transmission order.
#[derive(Clone, Copy, PartialEq, Eq, Structural, Debug)]
pub struct MacAddress(pub u8, pub u8, pub u8, pub u8, pub u8, pub u8);

impl MacAddress {
    /// The six octets in transmission order.
    pub open spec fn octets(self) -> Seq<u8> {
        seq![self.0, self.1, self.2, self.3, self.4, self.5]
    }

    /// The reserved all-ones address, delivered to every host on the
    /// segment.
    pub open spec fn spec_broadcast() -> MacAddress {
        MacAddress(0xff, 0xff, 0xff, 0xff, 0xff, 0xff)
    }

    pub open spec fn spec_zero() -> MacAddress {
        MacAddress(0, 0, 0, 0, 0, 0)
    }

    pub fn broadcast() -> (r: MacAddress)
        ensures
            r == MacAddress::spec_broadcast(),
    {
        MacAddress(0xff, 0xff, 0xff, 0xff, 0xff, 0xff)
    }

    pub fn zero() -> (r: MacAddress)
        ensures
            r == MacAddress::spec_zero(),
    {
        MacAddress(0, 0, 0, 0, 0, 0)
    }
}

/// An IPv4 address, stored as four octets in transmission order.
#[derive(Clone, Copy, PartialEq, Eq, Structural, Debug)]
pub struct Ipv4Address(pub u8, pub u8, pub u8, pub u8);

impl Ipv4Address {
    /// The four octets in transmission order.
    pub open spec fn octets(self) -> Seq<u8> {
        seq![self.0, self.1, self.2, self.3]
    }

    /// The unspecified address `0.0.0.0`.
    pub open spec fn spec_zero() -> Ipv4Address {
        Ipv4Address(0, 0, 0, 0)
    }

    pub fn zero() -> (r: Ipv4Address)
        ensures
            r == Ipv4Address::spec_zero(),
    {
        Ipv4Address(0, 0, 0, 0)
    }
}

/// One address assigned to an interface, tagged by family.  ARP works on
/// IPv4 only, so the engine reads nothing of a v6 assignment but its tag.
#[derive(Clone, Copy, PartialEq, Eq, Structural, Debug)]
pub enum IpAssignment {
    V4(Ipv4Address),
    V6,
}

impl IpAssignment {
    pub open spec fn spec_is_v4(self) -> bool {
        self is V4
    }

    pub fn is_ipv4(&self) -> (r: bool)
        ensures
            r == self.spec_is_v4(),
    {
        match self {
            IpAssignment::V4(_) => true,
            IpAssignment::V6 => false,
        }
    }
}

/// Interface-flag bit values, as the platform reports them.
pub const FLAG_UP: u32 = 0x1;

pub const FLAG_BROADCAST: u32 = 0x2;

pub const FLAG_LOOPBACK: u32 = 0x8;

pub const FLAG_POINT_TO_POINT: u32 = 0x10;

pub const FLAG_RUNNING: u32 = 0x40;

pub const FLAG_MULTICAST: u32 = 0x1000;

pub const FLAG_LOWER_UP: u32 = 0x10000;

pub const FLAG_DORMANT: u32 = 0x20000;

/// Immutable snapshot of one host network adapter, taken before a scan and
/// never mutated by the engine.
#[derive(Debug)]
pub struct NetInterface {
    /// The platform's name for the adapter.
    pub name: String,
    /// The hardware address; absent on some virtual interfaces.
    pub mac: Option<MacAddress>,
    /// The assigned addresses, in the order the platform lists them.
    pub ips: Vec<IpAssignment>,
    /// The interface flag bitfield.
    pub flags: u32,
}

impl NetInterface {
    pub open spec fn spec_is_up(self) -> bool {
        self.flags & FLAG_UP != 0
    }

    pub open spec fn spec_is_loopback(self) -> bool {
        self.flags & FLAG_LOOPBACK != 0
    }

    pub open spec fn spec_has_ipv4(self) -> bool {
        exists|i: int| 0 <= i < self.ips@.len() && self.ips@[i].spec_is_v4()
    }

    pub fn is_up(&self) -> (r: bool)
        ensures
            r == self.spec_is_up(),
    {
        self.flags & FLAG_UP != 0
    }

    pub fn is_loopback(&self) -> (r: bool)
        ensures
            r == self.spec_is_loopback(),
    {
        self.flags & FLAG_LOOPBACK != 0
    }

    /// Whether at least one assigned address is IPv4.
    pub fn has_ipv4(&self) -> (r: bool)
        ensures
            r == self.spec_has_ipv4(),
    {
        let mut i: usize = 0;
        while i < self.ips.len()
            invariant
                0 <= i <= self.ips@.len(),
                forall|j: int| 0 <= j < i ==> !self.ips@[j].spec_is_v4(),
            decreases self.ips@.len() - i,
        {
            if self.ips[i].is_ipv4() {
                return true;
            }
            i = i + 1;
        }
        false
    }
}

} // verus!

use arp_scan::catalog::{get_available_interfaces, is_scannable};
use arp_scan::iface::{
    IpAssignment, Ipv4Address, MacAddress, NetInterface, FLAG_LOOPBACK, FLAG_RUNNING, FLAG_UP,
};

fn iface(name: &str, flags: u32, ips: Vec<IpAssignment>) -> NetInterface {
    NetInterface {
        name: String::from(name),
        mac: Some(MacAddress(2, 0, 0, 0, 0, 1)),
        ips,
        flags,
    }
}

#[test]
fn keeps_one_up_interface_and_drops_the_down_one() {
    let up = iface(
        "eth0",
        FLAG_UP | FLAG_RUNNING,
        vec![IpAssignment::V4(Ipv4Address(192, 168, 1, 10))],
    );
    let down = iface("eth1", 0, vec![IpAssignment::V4(Ipv4Address(192, 168, 2, 10))]);
    let r = get_available_interfaces(vec![up, down]);
    assert_eq!(r.len(), 1);
    assert_eq!(r[0].name, "eth0");
    assert_eq!(r[0].mac, Some(MacAddress(2, 0, 0, 0, 0, 1)));
    assert_eq!(r[0].ips, vec![IpAssignment::V4(Ipv4Address(192, 168, 1, 10))]);
    assert_eq!(r[0].flags, FLAG_UP | FLAG_RUNNING);
}

#[test]
fn excludes_each_disqualifying_condition() {
    let down = iface("down0", 0, vec![IpAssignment::V4(Ipv4Address(10, 0, 0, 1))]);
    let loopback = iface(
        "lo",
        FLAG_UP | FLAG_LOOPBACK,
        vec![IpAssignment::V4(Ipv4Address(127, 0, 0, 1))],
    );
    let v6_only = iface("wg0", FLAG_UP, vec![IpAssignment::V6]);
    let no_addr = iface("dummy0", FLAG_UP, vec![]);
    assert!(!is_scannable(&down));
    assert!(!is_scannable(&loopback));
    assert!(!is_scannable(&v6_only));
    assert!(!is_scannable(&no_addr));
    let r = get_available_interfaces(vec![down, loopback, v6_only, no_addr]);
    assert_eq!(r.len(), 0);
}

#[test]
fn includes_interfaces_meeting_all_three_conditions_in_order() {
    let a = iface("eth0", FLAG_UP, vec![IpAssignment::V4(Ipv4Address(10, 0, 0, 1))]);
    let skipped = iface("lo", FLAG_UP | FLAG_LOOPBACK, vec![
        IpAssignment::V4(Ipv4Address(127, 0, 0, 1)),
    ]);
    let b = iface(
        "wlan0",
        FLAG_UP | FLAG_RUNNING,
        vec![IpAssignment::V6, IpAssignment::V4(Ipv4Address(10, 0, 0, 2))],
    );
    assert!(is_scannable(&a));
    assert!(is_scannable(&b));
    let r = get_available_interfaces(vec![a, skipped, b]);
    assert_eq!(r.len(), 2);
    assert_eq!(r[0].name, "eth0");
    assert_eq!(r[1].name, "wlan0");
}

#[test]
fn empty_input_gives_empty_output() {
    let r = get_available_interfaces(Vec::new());
    assert!(r.is_empty());
}

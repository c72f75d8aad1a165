use arp_scan::cli::{parse_interface_selection, parse_usize, Selection};
use arp_scan::error::ScanError;
use arp_scan::iface::{
    IpAssignment, Ipv4Address, MacAddress, NetInterface, FLAG_LOOPBACK, FLAG_LOWER_UP,
    FLAG_RUNNING, FLAG_UP,
};
use arp_scan::options::{output_from_name, profile_from_name, OutputFormat, ProfileType};
use arp_scan::render::{count_ipv4, count_ipv6, flag_names, max_length, Platform};
use arp_scan::text::str_eq;

#[test]
fn profile_names_and_short_forms() {
    assert_eq!(profile_from_name("default"), Some(ProfileType::Default));
    assert_eq!(profile_from_name("d"), Some(ProfileType::Default));
    assert_eq!(profile_from_name("fast"), Some(ProfileType::Fast));
    assert_eq!(profile_from_name("f"), Some(ProfileType::Fast));
    assert_eq!(profile_from_name("stealth"), Some(ProfileType::Stealth));
    assert_eq!(profile_from_name("s"), Some(ProfileType::Stealth));
    assert_eq!(profile_from_name("chaos"), Some(ProfileType::Chaos));
    assert_eq!(profile_from_name("c"), Some(ProfileType::Chaos));
    assert_eq!(profile_from_name("turbo"), None);
    assert_eq!(profile_from_name(""), None);
}

#[test]
fn output_names_and_short_forms() {
    assert_eq!(output_from_name("plain"), Some(OutputFormat::Plain));
    assert_eq!(output_from_name("p"), Some(OutputFormat::Plain));
    assert_eq!(output_from_name("json"), Some(OutputFormat::Json));
    assert_eq!(output_from_name("j"), Some(OutputFormat::Json));
    assert_eq!(output_from_name("yaml"), Some(OutputFormat::Yaml));
    assert_eq!(output_from_name("y"), Some(OutputFormat::Yaml));
    assert_eq!(output_from_name("csv"), Some(OutputFormat::Csv));
    assert_eq!(output_from_name("c"), Some(OutputFormat::Csv));
    assert_eq!(output_from_name("xml"), None);
}

#[test]
fn error_messages() {
    assert_eq!(ScanError::ConfigurationError.message(), "interface has no hardware address");
    assert_eq!(ScanError::NoSourceAddress.message(), "no IPv4 address found on interface");
    assert_eq!(ScanError::UnsupportedChannel.message(), "unsupported channel type");
    assert_eq!(ScanError::SendFailed.message(), "failed to send ARP request");
    assert_eq!(ScanError::ChannelFailed.message(), "error receiving packet");
}

#[test]
fn decimal_parsing() {
    assert_eq!(parse_usize("0"), Some(0));
    assert_eq!(parse_usize("42"), Some(42));
    assert_eq!(parse_usize("007"), Some(7));
    assert_eq!(parse_usize(""), None);
    assert_eq!(parse_usize("abc"), None);
    assert_eq!(parse_usize("1a"), None);
    assert_eq!(parse_usize("-1"), None);
    assert_eq!(parse_usize(" 3"), None);
    assert_eq!(parse_usize("18446744073709551615"), Some(usize::MAX));
    assert_eq!(parse_usize("18446744073709551616"), None);
    assert_eq!(parse_usize("99999999999999999999999999"), None);
}

#[test]
fn interface_selection() {
    assert_eq!(parse_interface_selection("2", 5), Selection::Chosen(2));
    assert_eq!(parse_interface_selection("0", 1), Selection::Chosen(0));
    assert_eq!(parse_interface_selection("5", 5), Selection::OutOfRange);
    assert_eq!(parse_interface_selection("7", 5), Selection::OutOfRange);
    assert_eq!(parse_interface_selection("x", 5), Selection::NotANumber);
    assert_eq!(parse_interface_selection("", 5), Selection::NotANumber);
}

#[test]
fn flag_decoding_follows_the_platform_table() {
    let flags = FLAG_UP | FLAG_LOOPBACK | FLAG_RUNNING | FLAG_LOWER_UP;
    assert_eq!(
        flag_names(flags, Platform::LinuxLike),
        vec!["UP", "LOOPBACK", "RUNNING", "LOWERUP"]
    );
    assert_eq!(flag_names(flags, Platform::OtherUnix), vec!["UP", "LOOPBACK", "RUNNING"]);
    assert_eq!(flag_names(flags, Platform::Other), vec!["UP", "LOOPBACK"]);
    assert_eq!(flag_names(0, Platform::LinuxLike), Vec::<&str>::new());
    let all = 0x1 | 0x2 | 0x8 | 0x10 | 0x1000 | 0x40 | 0x20000 | 0x10000;
    assert_eq!(
        flag_names(all, Platform::LinuxLike),
        vec![
            "UP",
            "BROADCAST",
            "LOOPBACK",
            "POINTOPOINT",
            "MULTICAST",
            "RUNNING",
            "DORMANT",
            "LOWERUP"
        ]
    );
}

#[test]
fn address_counts() {
    let iface = NetInterface {
        name: String::from("eth0"),
        mac: Some(MacAddress(2, 0, 0, 0, 0, 1)),
        ips: vec![
            IpAssignment::V6,
            IpAssignment::V4(Ipv4Address(10, 0, 0, 1)),
            IpAssignment::V4(Ipv4Address(10, 0, 0, 2)),
        ],
        flags: FLAG_UP,
    };
    assert_eq!(count_ipv4(&iface), 2);
    assert_eq!(count_ipv6(&iface), 1);
}

#[test]
fn column_widths() {
    assert_eq!(max_length(&Vec::new()), 0);
    assert_eq!(max_length(&vec![3, 7, 2]), 7);
    assert_eq!(max_length(&vec![4]), 4);
}

#[test]
fn string_equality() {
    assert!(str_eq("eth0", "eth0"));
    assert!(!str_eq("eth0", "eth1"));
    assert!(!str_eq("eth0", "eth01"));
    assert!(str_eq("", ""));
}

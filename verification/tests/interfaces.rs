use proxy_session::address::Address;
use proxy_session::command::Interface;
use proxy_session::error::ErrorKind;
use proxy_session::interface::{
    effective_mtu, interface, interface_position, list_interfaces, NetworkInterface,
};

fn found(name: &str, label: &str, mtu: usize, up: bool, loopback: bool) -> NetworkInterface {
    NetworkInterface {
        name: name.to_string(),
        label: label.to_string(),
        address: Some(Address::new(192, 168, 1, 10)),
        mtu,
        up,
        loopback,
    }
}

#[test]
fn interface_new_keeps_its_parts() {
    let i = Interface::new("eth0".to_string(), Some("Realtek".to_string()), 1500);
    assert_eq!(i.name(), "eth0");
    assert_eq!(i.alias(), Some("Realtek"));
    assert_eq!(i.mtu(), 1500);
    let i = Interface::new(String::new(), None, 0);
    assert_eq!(i.name(), "");
    assert_eq!(i.alias(), None);
    assert_eq!(i.mtu(), 0);
}

#[test]
fn interface_is_found_by_name() {
    let all = vec![
        found("lo", "lo", 65536, true, true),
        found("eth0", "eth0 (Realtek)", 1500, true, false),
        found("eth1", "eth1", 9000, true, false),
    ];
    assert_eq!(interface(&all, "eth1").unwrap().mtu, 9000);
    assert_eq!(interface(&all, "eth0").unwrap().label, "eth0 (Realtek)");
}

#[test]
fn interface_down_or_loopback_is_not_found() {
    let all = vec![
        found("lo", "lo", 65536, true, true),
        found("eth0", "eth0", 1500, false, false),
        found("eth1", "eth1", 1500, false, true),
    ];
    assert!(interface(&all, "lo").is_none());
    assert!(interface(&all, "eth0").is_none());
    assert!(interface(&all, "eth1").is_none());
    assert!(interface(&all, "eth2").is_none());
    assert!(interface(&vec![], "eth0").is_none());
}

#[test]
fn interface_first_of_the_name_that_is_usable() {
    let all = vec![
        found("eth0", "first", 1, false, false),
        found("eth0", "second", 2, true, false),
        found("eth0", "third", 3, true, false),
    ];
    assert_eq!(interface(&all, "eth0").unwrap().label, "second");
    assert_eq!(interface_position(&all, "eth0"), Some(1));
    assert_eq!(interface_position(&all, "eth1"), None);
    assert_eq!(interface_position(&vec![], "eth0"), None);
}

#[test]
fn interface_name_is_matched_whole() {
    let all = vec![found("eth0", "eth0", 1500, true, false)];
    assert!(interface(&all, "eth").is_none());
    assert!(interface(&all, "eth00").is_none());
    assert!(interface(&all, "ETH0").is_none());
    assert!(interface(&all, "").is_none());
}

#[test]
fn list_interfaces_lists_all_in_order() {
    let all = vec![
        found("lo", "lo", 65536, true, true),
        found("eth0", "eth0 (Realtek PCIe)", 1500, false, false),
        found("wlan0", "wlan0 (Intel (R) Wi-Fi)", 1400, true, false),
        found("tap0", "tap0 ()", 0, true, false),
    ];
    let listed = list_interfaces(&all);
    assert_eq!(listed.len(), 4);
    assert_eq!(listed[0].name(), "lo");
    assert_eq!(listed[0].alias(), None);
    assert_eq!(listed[0].mtu(), 65536);
    assert_eq!(listed[1].name(), "eth0");
    assert_eq!(listed[1].alias(), Some("Realtek PCIe"));
    assert_eq!(listed[1].mtu(), 1500);
    assert_eq!(listed[2].name(), "wlan0");
    assert_eq!(listed[2].alias(), Some("Intel (R) Wi-Fi"));
    assert_eq!(listed[3].alias(), None);
    assert_eq!(listed[3].mtu(), 0);
    assert!(list_interfaces(&vec![]).is_empty());
}

#[test]
fn effective_mtu_override_wins() {
    assert_eq!(effective_mtu(1400, 1500).unwrap(), 1400);
    assert_eq!(effective_mtu(1400, 0).unwrap(), 1400);
    assert_eq!(effective_mtu(usize::MAX, 1500).unwrap(), usize::MAX);
}

#[test]
fn effective_mtu_falls_back_to_the_interface() {
    assert_eq!(effective_mtu(0, 1500).unwrap(), 1500);
    assert_eq!(effective_mtu(0, 1).unwrap(), 1);
}

#[test]
fn effective_mtu_unknown_is_a_configuration_error() {
    let e = effective_mtu(0, 0).unwrap_err();
    assert_eq!(e.kind(), ErrorKind::Configuration);
    assert_eq!(e.message(), "cannot determine the MTU of the interface");
}

use proxy_session::address::Address;
use proxy_session::command::RunPayload;
use proxy_session::error::ErrorKind;
use proxy_session::interface::NetworkInterface;
use proxy_session::network::Network;
use proxy_session::plan::{plan_device, plan_network, plan_publish, settle_plan, Plan};

fn config(preset: usize, source: &str, publish: &str, mtu: usize) -> RunPayload {
    RunPayload {
        interface: "eth0".to_string(),
        mtu,
        preset,
        source: source.to_string(),
        publish: publish.to_string(),
        destination: "10.0.0.1:1080".to_string(),
        authentication: false,
        username: String::new(),
        password: String::new(),
        extra: String::new(),
    }
}

fn eth0(address: Option<Address>, mtu: usize) -> NetworkInterface {
    NetworkInterface {
        name: "eth0".to_string(),
        label: "eth0 (Realtek)".to_string(),
        address,
        mtu,
        up: true,
        loopback: false,
    }
}

fn net(a: u8, b: u8, c: u8, d: u8, prefix: u8) -> Network {
    Network::new(Address::new(a, b, c, d), prefix).unwrap()
}

#[test]
fn plan_custom_with_publish() {
    let here = Some(Address::new(192, 168, 1, 10));
    let plan = plan_device(&config(0, "10.6.0.0/24", "10.6.0.254", 0), &eth0(here, 1500)).unwrap();
    assert_eq!(
        plan,
        Plan {
            mtu: 1500,
            network: net(10, 6, 0, 0, 24),
            publish: Some(Address::new(10, 6, 0, 254)),
            gateway: Address::new(10, 6, 0, 254),
            mask: Address::new(255, 255, 255, 0),
        }
    );
}

#[test]
fn plan_custom_without_publish_uses_the_interface() {
    let here = Some(Address::new(192, 168, 1, 10));
    let plan = plan_device(&config(0, "192.168.1.77/24", "", 1400), &eth0(here, 1500)).unwrap();
    assert_eq!(
        plan,
        Plan {
            mtu: 1400,
            network: net(192, 168, 1, 77, 24),
            publish: None,
            gateway: Address::new(192, 168, 1, 10),
            mask: Address::new(255, 255, 255, 0),
        }
    );
}

#[test]
fn plan_custom_gateway_outside_the_network() {
    let here = Some(Address::new(192, 168, 1, 10));
    let plan = plan_device(&config(0, "10.6.0.1/32", "", 0), &eth0(here, 1500)).unwrap();
    assert_eq!(plan.gateway, Address::new(192, 168, 1, 10));
    assert_eq!(plan.mask, Address::new(0, 0, 0, 0));
}

#[test]
fn plan_fixed_block() {
    let here = Some(Address::new(192, 168, 1, 10));
    let plan = plan_device(&config(1, "ignored", "ignored", 0), &eth0(here, 1500)).unwrap();
    assert_eq!(
        plan,
        Plan {
            mtu: 1500,
            network: net(10, 6, 0, 1, 32),
            publish: Some(Address::new(10, 6, 0, 2)),
            gateway: Address::new(10, 6, 0, 2),
            mask: Address::new(255, 255, 255, 0),
        }
    );
}

#[test]
fn plan_block_made_from_the_interface() {
    let here = Some(Address::new(192, 168, 5, 10));
    let plan = plan_device(&config(2, "", "", 0), &eth0(here, 1500)).unwrap();
    assert_eq!(
        plan,
        Plan {
            mtu: 1500,
            network: net(172, 24, 6, 10, 32),
            publish: Some(Address::new(172, 24, 5, 10)),
            gateway: Address::new(172, 24, 5, 10),
            mask: Address::new(255, 255, 0, 0),
        }
    );
}

#[test]
fn plan_block_made_from_the_interface_wraps_the_third_octet() {
    let here = Some(Address::new(10, 0, 255, 7));
    let plan = plan_device(&config(2, "", "", 0), &eth0(here, 1500)).unwrap();
    assert_eq!(plan.network, net(172, 24, 0, 7, 32));
    assert_eq!(plan.publish, Some(Address::new(172, 24, 255, 7)));
    assert_eq!(plan.mask, Address::new(255, 255, 0, 0));
}

#[test]
fn plan_unknown_mtu_comes_first() {
    let e = plan_device(&config(0, "nonsense", "nonsense", 0), &eth0(None, 0)).unwrap_err();
    assert_eq!(e.kind(), ErrorKind::Configuration);
    assert_eq!(e.message(), "cannot determine the MTU of the interface");
}

#[test]
fn plan_bad_source_is_an_addressing_error() {
    let here = Some(Address::new(192, 168, 1, 10));
    let e = plan_device(&config(0, "10.6.0.0/33", "nonsense", 0), &eth0(here, 1500)).unwrap_err();
    assert_eq!(e.kind(), ErrorKind::Addressing);
    assert_eq!(e.message(), "invalid prefix");
}

#[test]
fn plan_bad_publish_is_an_addressing_error() {
    let here = Some(Address::new(192, 168, 1, 10));
    let e = plan_device(&config(0, "10.6.0.0/24", "10.6.0", 0), &eth0(here, 1500)).unwrap_err();
    assert_eq!(e.kind(), ErrorKind::Addressing);
    assert_eq!(e.message(), "invalid IPv4 address syntax");
}

#[test]
fn plan_unknown_preset_is_a_configuration_error() {
    let here = Some(Address::new(192, 168, 1, 10));
    let e = plan_device(&config(3, "10.6.0.0/24", "", 0), &eth0(here, 1500)).unwrap_err();
    assert_eq!(e.kind(), ErrorKind::Configuration);
    assert_eq!(e.message(), "unknown preset");
}

#[test]
fn plan_interface_without_address_is_a_configuration_error() {
    for preset in [0usize, 1, 2] {
        let e = plan_device(&config(preset, "10.6.0.0/24", "10.6.0.1", 0), &eth0(None, 1500))
            .unwrap_err();
        assert_eq!(e.kind(), ErrorKind::Configuration, "preset {}", preset);
        assert_eq!(e.message(), "the interface has no IPv4 address");
    }
}

#[test]
fn plan_network_and_publish_by_preset() {
    let here = Some(Address::new(192, 168, 9, 3));
    assert_eq!(plan_network(0, "10.1.2.3/8", here).unwrap(), net(10, 1, 2, 3, 8));
    assert_eq!(plan_network(1, "", None).unwrap(), net(10, 6, 0, 1, 32));
    assert_eq!(plan_network(2, "", here).unwrap(), net(172, 24, 10, 3, 32));
    assert_eq!(plan_network(7, "", here).unwrap_err().kind(), ErrorKind::Configuration);
    assert_eq!(plan_publish(0, "", here).unwrap(), None);
    assert_eq!(plan_publish(0, "1.2.3.4", None).unwrap(), Some(Address::new(1, 2, 3, 4)));
    assert_eq!(plan_publish(1, "", None).unwrap(), Some(Address::new(10, 6, 0, 2)));
    assert_eq!(plan_publish(2, "", here).unwrap(), Some(Address::new(172, 24, 9, 3)));
    assert_eq!(plan_publish(2, "", None).unwrap_err().kind(), ErrorKind::Configuration);
}

#[test]
fn settle_plan_picks_gateway_and_mask() {
    let here = Some(Address::new(192, 168, 1, 10));
    let plan = settle_plan(1500, net(192, 168, 0, 0, 16), None, here).unwrap();
    assert_eq!(plan.gateway, Address::new(192, 168, 1, 10));
    assert_eq!(plan.mask, Address::new(255, 255, 0, 0));
    assert_eq!(plan.publish, None);
    let publish = Some(Address::new(192, 169, 0, 1));
    let plan = settle_plan(1500, net(192, 168, 0, 0, 16), publish, here).unwrap();
    assert_eq!(plan.gateway, Address::new(192, 169, 0, 1));
    assert_eq!(plan.mask, Address::new(255, 0, 0, 0));
    assert_eq!(plan.publish, publish);
    assert_eq!(plan.mtu, 1500);
    assert_eq!(plan.network, net(192, 168, 0, 0, 16));
    let e = settle_plan(1500, net(192, 168, 0, 0, 16), publish, None).unwrap_err();
    assert_eq!(e.kind(), ErrorKind::Configuration);
    assert_eq!(e.message(), "the interface has no IPv4 address");
}

//! How the device is addressed: its network, the address it is published as,
//! its gateway and its mask, and the MTU in effect.

use crate::address::{assemble, octet, parse_dotted, Address};
use crate::command::RunPayload;
use crate::error::{Error, ErrorKind, Failure};
use crate::interface::{effective_mtu, mtu_in_effect, NetworkInterface};
use crate::mask::{calc_mask, inferred};
use crate::network::{cidr_of, Network};
use vstd::prelude::*;
use vstd::string::*;

verus! {

broadcast use {Network::of_parts, Network::of_own_parts};

/// The addressing of a device and the MTU of its session.
#[derive(Clone, Copy, Debug, PartialEq, Eq)]
pub struct Plan {
    /// The MTU in effect.
    pub mtu: usize,
    /// The network of the device.
    pub network: Network,
    /// The address that the device is published as, if it is not that of the
    /// interface.
    pub publish: Option<Address>,
    /// The gateway of the device.
    pub gateway: Address,
    /// The mask of the device.
    pub mask: Address,
}

/// The octet after `o`, starting again from 0 after 255.
pub open spec fn next_octet(o: u8) -> u8 {
    if o == 255 {
        0
    } else {
        (o + 1) as u8
    }
}

/// The failure of an interface to have an address.
pub open spec fn no_address() -> Failure {
    Failure::worded(ErrorKind::Configuration, "the interface has no IPv4 address"@)
}

/// The network of the device under the given preset, on an interface with the
/// given address; the failure where there is none.
pub open spec fn planned_network(
    preset: usize,
    source: Seq<char>,
    address: Option<Address>,
) -> Result<Network, Failure> {
    if preset == 0 {
        match cidr_of(source) {
            Some((bits, prefix)) => Ok(Network::of(Address { bits }, prefix)),
            None => Err(Failure::of_kind(ErrorKind::Addressing)),
        }
    } else if preset == 1 {
        Ok(Network::of(Address { bits: assemble(10, 6, 0, 1) }, 32))
    } else if preset == 2 {
        match address {
            Some(ip) => Ok(
                Network::of(
                    Address {
                        bits: assemble(172, 24, next_octet(octet(ip.bits, 2)), octet(ip.bits, 3)),
                    },
                    32,
                ),
            ),
            None => Err(no_address()),
        }
    } else {
        Err(Failure::worded(ErrorKind::Configuration, "unknown preset"@))
    }
}

/// The address that the device is published as under the given preset, on an
/// interface with the given address; the failure where the text given for it
/// is no address. Presets other than the three are refused with
/// the network, before this is asked.
pub open spec fn planned_publish(
    preset: usize,
    publish: Seq<char>,
    address: Option<Address>,
) -> Result<Option<Address>, Failure> {
    if preset == 0 {
        if publish.len() == 0 {
            Ok(None)
        } else {
            match parse_dotted(publish) {
                Some(bits) => Ok(Some(Address { bits })),
                None => Err(
                    Failure::worded(ErrorKind::Addressing, "invalid IPv4 address syntax"@),
                ),
            }
        }
    } else if preset == 1 {
        Ok(Some(Address { bits: assemble(10, 6, 0, 2) }))
    } else {
        match address {
            Some(ip) => Ok(
                Some(Address { bits: assemble(172, 24, octet(ip.bits, 2), octet(ip.bits, 3)) }),
            ),
            None => Err(no_address()),
        }
    }
}

/// The plan made of an MTU, a network and a published address on an interface
/// with the given address: the gateway is the published address, or else that
/// of the interface, and the mask is inferred from network and gateway. An
/// interface without an address carries no session.
pub open spec fn settled(
    mtu: usize,
    network: Network,
    publish: Option<Address>,
    address: Option<Address>,
) -> Result<Plan, Failure> {
    match address {
        None => Err(no_address()),
        Some(ip) => {
            let gateway = match publish {
                Some(p) => p,
                None => ip,
            };
            Ok(Plan { mtu, network, publish, gateway, mask: inferred(network, gateway) })
        },
    }
}

/// The plan for a configuration on an interface, or the failure that stands
/// in its way. The MTU is settled first, then the network, then
/// the published address; an interface without an address carries no session.
pub open spec fn planned(config: RunPayload, interface: NetworkInterface) -> Result<
    Plan,
    Failure,
> {
    match mtu_in_effect(config.mtu, interface.mtu) {
        None => Err(
            Failure::worded(
                ErrorKind::Configuration,
                "cannot determine the MTU of the interface"@,
            ),
        ),
        Some(mtu) => match planned_network(config.preset, config.source@, interface.address) {
            Err(failure) => Err(failure),
            Ok(network) => match planned_publish(
                config.preset,
                config.publish@,
                interface.address,
            ) {
                Err(failure) => Err(failure),
                Ok(publish) => settled(mtu, network, publish, interface.address),
            },
        },
    }
}

/// The network of the device under the given preset.
pub fn plan_network(preset: usize, source: &str, address: Option<Address>) -> (r: Result<
    Network,
    Error,
>)
    ensures
        match r {
            Ok(network) => planned_network(preset, source@, address) == Ok::<Network, Failure>(
                network,
            ) && network.wf(),
            Err(e) => planned_network(preset, source@, address) matches Err(failure)
                && e.reports(failure),
        },
{
    if preset == 0 {
        Network::parse(source)
    } else if preset == 1 {
        Ok(Network::host(Address::new(10, 6, 0, 1)))
    } else if preset == 2 {
        match address {
            Some(ip) => {
                let o = ip.octets();
                let third: u8 = if o[2] == 255 {
                    0
                } else {
                    o[2] + 1
                };
                Ok(Network::host(Address::new(172, 24, third, o[3])))
            },
            None => Err(
                Error::describe(ErrorKind::Configuration, "the interface has no IPv4 address"),
            ),
        }
    } else {
        Err(Error::describe(ErrorKind::Configuration, "unknown preset"))
    }
}

/// The address that the device is published as under the given preset, which
/// is one of the three.
pub fn plan_publish(preset: usize, publish: &str, address: Option<Address>) -> (r: Result<
    Option<Address>,
    Error,
>)
    ensures
        match r {
            Ok(p) => planned_publish(preset, publish@, address) == Ok::<Option<Address>, Failure>(
                p,
            ),
            Err(e) => planned_publish(preset, publish@, address) matches Err(failure)
                && e.reports(failure),
        },
{
    if preset == 0 {
        if publish.unicode_len() == 0 {
            Ok(None)
        } else {
            match Address::parse(publish) {
                Some(a) => Ok(Some(a)),
                None => Err(
                    Error::describe(ErrorKind::Addressing, "invalid IPv4 address syntax"),
                ),
            }
        }
    } else if preset == 1 {
        Ok(Some(Address::new(10, 6, 0, 2)))
    } else {
        match address {
            Some(ip) => {
                let o = ip.octets();
                Ok(Some(Address::new(172, 24, o[2], o[3])))
            },
            None => Err(
                Error::describe(ErrorKind::Configuration, "the interface has no IPv4 address"),
            ),
        }
    }
}

/// Makes the plan of an MTU, a network and a published address on an
/// interface with the given address.
pub fn settle_plan(
    mtu: usize,
    network: Network,
    publish: Option<Address>,
    address: Option<Address>,
) -> (r: Result<Plan, Error>)
    ensures
        match r {
            Ok(plan) => settled(mtu, network, publish, address) == Ok::<Plan, Failure>(plan),
            Err(e) => settled(mtu, network, publish, address) matches Err(failure) && e.reports(
                failure,
            ),
        },
{
    let ip = match address {
        Some(ip) => ip,
        None => {
            return Err(
                Error::describe(ErrorKind::Configuration, "the interface has no IPv4 address"),
            );
        },
    };
    let gateway = match publish {
        Some(p) => p,
        None => ip,
    };
    let mask = calc_mask(network, gateway);
    Ok(Plan { mtu, network, publish, gateway, mask })
}

/// Plans the addressing of the device for a configuration on an interface.
pub fn plan_device(config: &RunPayload, interface: &NetworkInterface) -> (r: Result<Plan, Error>)
    ensures
        match r {
            Ok(plan) => planned(*config, *interface) == Ok::<Plan, Failure>(plan)
                && plan.network.wf(),
            Err(e) => planned(*config, *interface) matches Err(failure) && e.reports(failure),
        },
{
    let mtu = match effective_mtu(config.mtu, interface.mtu) {
        Ok(mtu) => mtu,
        Err(e) => {
            return Err(e);
        },
    };
    let network = match plan_network(config.preset, config.source.as_str(), interface.address) {
        Ok(network) => network,
        Err(e) => {
            return Err(e);
        },
    };
    let publish = match plan_publish(config.preset, config.publish.as_str(), interface.address) {
        Ok(publish) => publish,
        Err(e) => {
            return Err(e);
        },
    };
    settle_plan(mtu, network, publish, interface.address)
}

} // verus!

//! The interfaces of the machine, as they were found, and the choice among them.

use crate::address::Address;
use crate::command::{Interface, InterfaceView};
use crate::descriptor::{label_alias, InterfaceDescriptor};
use crate::error::{Error, ErrorKind};
use vstd::prelude::*;
use vstd::string::*;

verus! {

/// An interface as it was found on the machine.
#[derive(Debug)]
pub struct NetworkInterface {
    /// The name by which the interface is chosen.
    pub name: String,
    /// The label of the interface, `name (alias)`.
    pub label: String,
    /// The IPv4 address of the interface, if it has one.
    pub address: Option<Address>,
    /// The MTU of the interface; 0 where it could not be found out.
    pub mtu: usize,
    /// Whether the interface is up.
    pub up: bool,
    /// Whether the interface is a loopback.
    pub loopback: bool,
}

/// Whether a session can use the interface under the given name: it is up,
/// no loopback and has that name.
pub open spec fn usable(interface: NetworkInterface, name: Seq<char>) -> bool {
    interface.up && !interface.loopback && interface.name@ == name
}

/// The position of the first usable interface of that name from `i` on.
pub open spec fn usable_from(found: Seq<NetworkInterface>, name: Seq<char>, i: int) -> Option<int>
    decreases found.len() - i,
{
    if !(0 <= i < found.len()) {
        None
    } else if usable(found[i], name) {
        Some(i)
    } else {
        usable_from(found, name, i + 1)
    }
}

/// How an interface is listed: under its name, with the alias of its label.
pub open spec fn listing(interface: NetworkInterface) -> InterfaceView {
    InterfaceView {
        name: interface.name@,
        alias: label_alias(interface.label@),
        mtu: interface.mtu,
    }
}

/// The MTU in effect: the one asked for, or else that of the interface;
/// `None` where neither is known.
pub open spec fn mtu_in_effect(requested: usize, interface_mtu: usize) -> Option<usize> {
    if requested != 0 {
        Some(requested)
    } else if interface_mtu != 0 {
        Some(interface_mtu)
    } else {
        None
    }
}

/// The position of the interface of the given name among those that are up
/// and no loopback: that of the first, where several have the name.
pub fn interface_position(found: &Vec<NetworkInterface>, name: &str) -> (r: Option<usize>)
    ensures
        match r {
            Some(i) => usable_from(found@, name@, 0) == Some(i as int) && i < found@.len(),
            None => usable_from(found@, name@, 0) is None,
        },
{
    let wanted = name.to_owned();
    let mut i: usize = 0;
    while i < found.len()
        invariant
            i <= found@.len(),
            wanted@ == name@,
            usable_from(found@, name@, 0) == usable_from(found@, name@, i as int),
        decreases found@.len() - i,
    {
        let candidate = &found[i];
        if candidate.up && !candidate.loopback && candidate.name == wanted {
            return Some(i);
        }
        i = i + 1;
    }
    None
}

/// Finds the interface of the given name among those that are up and no
/// loopback: the first, where several have the name.
pub fn interface<'a>(found: &'a Vec<NetworkInterface>, name: &str) -> (r: Option<
    &'a NetworkInterface,
>)
    ensures
        match r {
            Some(interface) => usable_from(found@, name@, 0) is Some && *interface
                == found@[usable_from(found@, name@, 0).unwrap()],
            None => usable_from(found@, name@, 0) is None,
        },
{
    match interface_position(found, name) {
        Some(i) => Some(&found[i]),
        None => None,
    }
}

/// Lists the interfaces that were found, each under its name and with the
/// alias that its label gives.
pub fn list_interfaces(found: &Vec<NetworkInterface>) -> (r: Vec<Interface>)
    ensures
        r@.len() == found@.len(),
        forall|i: int| 0 <= i < found@.len() ==> (#[trigger] r@[i])@ == listing(found@[i]),
{
    let mut listed: Vec<Interface> = Vec::new();
    let mut i: usize = 0;
    while i < found.len()
        invariant
            i <= found@.len(),
            listed@.len() == i,
            forall|k: int| 0 <= k < i ==> (#[trigger] listed@[k])@ == listing(found@[k]),
        decreases found@.len() - i,
    {
        let descriptor = InterfaceDescriptor::parse(found[i].label.as_str());
        listed.push(Interface::new(found[i].name.clone(), descriptor.alias, found[i].mtu));
        i = i + 1;
    }
    listed
}

/// The MTU that a session uses: the one asked for, or else that of the
/// interface. Where neither is known, the configuration cannot be carried out.
pub fn effective_mtu(requested: usize, interface_mtu: usize) -> (r: Result<usize, Error>)
    ensures
        match r {
            Ok(mtu) => mtu_in_effect(requested, interface_mtu) == Some(mtu),
            Err(e) => mtu_in_effect(requested, interface_mtu) is None && e@.kind
                == ErrorKind::Configuration && e@.message
                == "cannot determine the MTU of the interface"@,
        },
{
    if requested != 0 {
        Ok(requested)
    } else if interface_mtu != 0 {
        Ok(interface_mtu)
    } else {
        Err(Error::describe(ErrorKind::Configuration, "cannot determine the MTU of the interface"))
    }
}

} // verus!

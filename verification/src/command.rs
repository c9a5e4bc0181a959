//! What callers send and what they get back.

use vstd::prelude::*;
use vstd::string::*;

verus! {

/// The view of a text that may be missing.
pub open spec fn text_view(text: Option<String>) -> Option<Seq<char>> {
    match text {
        Some(t) => Some(t@),
        None => None,
    }
}

/// What a classification of the NAT in front of a proxy is asked with.
#[derive(Debug)]
pub struct TestPayload {
    pub destination: String,
    pub authentication: bool,
    pub username: String,
    pub password: String,
    pub extra: String,
}

/// What a session is started with.
#[derive(Debug)]
pub struct RunPayload {
    /// The name of the interface to capture on.
    pub interface: String,
    /// The MTU to use; 0 to take that of the interface.
    pub mtu: usize,
    /// How the device is addressed: 0 as `source` and `publish` say, 1 in a
    /// fixed private block, 2 in a block made from the interface's address.
    pub preset: usize,
    /// The network of the device in CIDR notation; read under preset 0 only.
    pub source: String,
    /// The address that the device is published as; empty for the interface's
    /// own. Read under preset 0 only.
    pub publish: String,
    /// The proxy, as `host:port`.
    pub destination: String,
    /// Whether the proxy asks for the user name and the password.
    pub authentication: bool,
    pub username: String,
    pub password: String,
    /// The tunnel to reach the proxy through; empty for none.
    pub extra: String,
}

/// A command, with the names of the callbacks that take its outcome.
#[derive(Debug)]
#[allow(inconsistent_fields)]
pub enum Cmd {
    ListInterfaces { callback: String, error: String },
    Test { payload: TestPayload, callback: String, error: String },
    Run { payload: RunPayload, callback: String, error: String },
    Stop { callback: String, error: String },
    GetStatus { callback: String, error: String },
}

/// An interface as it is listed.
#[derive(Debug)]
pub struct Interface {
    name: String,
    alias: Option<String>,
    mtu: usize,
}

/// A listed interface as contracts speak of it.
pub struct InterfaceView {
    pub name: Seq<char>,
    pub alias: Option<Seq<char>>,
    pub mtu: usize,
}

impl View for Interface {
    type V = InterfaceView;

    closed spec fn view(&self) -> InterfaceView {
        InterfaceView { name: self.name@, alias: text_view(self.alias), mtu: self.mtu }
    }
}

impl Interface {
    /// The listing of an interface.
    pub fn new(name: String, alias: Option<String>, mtu: usize) -> (r: Interface)
        ensures
            r@ == (InterfaceView { name: name@, alias: text_view(alias), mtu }),
    {
        Interface { name, alias, mtu }
    }

    /// The name of the interface.
    pub fn name(&self) -> (r: &str)
        ensures
            r@ == self@.name,
    {
        self.name.as_str()
    }

    /// The alias of the interface, if it has one.
    pub fn alias(&self) -> (r: Option<&str>)
        ensures
            match r {
                Some(a) => self@.alias == Some(a@),
                None => self@.alias is None,
            },
    {
        match &self.alias {
            Some(a) => Some(a.as_str()),
            None => None,
        }
    }

    /// The MTU of the interface.
    pub fn mtu(&self) -> (r: usize)
        ensures
            r == self@.mtu,
    {
        self.mtu
    }
}

/// The outcome of a classification.
#[derive(Debug)]
pub struct TestResponse {
    /// The class of the NAT.
    pub nat: String,
    /// The address that the proxy shows to the outside, where it was seen.
    pub ip: Option<String>,
}

/// The description of a session that has started.
#[derive(Debug)]
pub struct RunResponse {
    /// The class of the NAT.
    pub nat: String,
    /// The address that the proxy shows to the outside, where it was seen.
    pub remote_ip: Option<String>,
    /// The address of the device, or the first and the last of its range.
    pub src_ip: String,
    /// The mask for the device.
    pub mask: String,
    /// The gateway for the device.
    pub gateway: String,
    /// The MTU in effect.
    pub mtu: usize,
}

/// What a poll of the status reports.
#[derive(Clone, Copy, Debug, PartialEq, Eq, Structural)]
pub struct GetStatusResponse {
    pub run: bool,
    pub latency: isize,
    pub upload_size: usize,
    pub upload_count: usize,
    pub download_size: usize,
    pub download_count: usize,
}

} // verus!

//! Proxy endpoints: `host:port` texts, their resolution and local endpoints.

use crate::address::{assemble, is_digit, numeral, parse_dotted, Address};
use crate::error::{Error, ErrorKind, Failure};
use rand::Rng;
use vstd::prelude::*;
use vstd::string::*;
use vstd::utf8::encode_utf8;

verus! {

#[verifier::external_type_specification]
#[verifier::external_body]
pub struct ExParseIntError(std::num::ParseIntError);

/// An IPv4 address and a port.
#[derive(Clone, Copy, Debug, PartialEq, Eq, Structural)]
pub struct Endpoint {
    pub ip: Address,
    pub port: u16,
}

/// An address that a host name resolved to.
#[derive(Clone, Copy, Debug, PartialEq, Eq, Structural)]
pub enum HostAddress {
    /// An IPv4 address.
    V4(Address),
    /// An address of another family, which no session can use.
    V6,
}

/// The position of the last `:` among the first `n` bytes, if there is one.
pub open spec fn last_colon(bytes: Seq<u8>, n: int) -> Option<int>
    decreases n,
{
    if n <= 0 {
        None
    } else if bytes[n - 1] == 0x3a {
        Some(n - 1)
    } else {
        last_colon(bytes, n - 1)
    }
}

/// Where an endpoint text is split: at the offset of its last `:` in the
/// UTF-8 text, counted off in characters. In ASCII text, which every endpoint
/// that resolves is, that is the position of the `:` itself.
pub open spec fn split_point(s: Seq<char>) -> Option<int> {
    let bytes = encode_utf8(s);
    match last_colon(bytes, bytes.len() as int) {
        None => None,
        Some(i) => Some(
            if i < s.len() {
                i
            } else {
                s.len() as int
            },
        ),
    }
}

/// The host of an endpoint text: what stands before the split point.
pub open spec fn host_of(s: Seq<char>) -> Seq<char> {
    s.subrange(0, split_point(s).unwrap())
}

/// The port text of an endpoint text: what stands after the character at the
/// split point.
pub open spec fn port_text_of(s: Seq<char>) -> Seq<char> {
    let i = split_point(s).unwrap();
    if i + 1 < s.len() {
        s.subrange(i + 1, s.len() as int)
    } else {
        Seq::empty()
    }
}

/// The port that a text writes: decimal digits, at least one, with a `+` in
/// front of them or not, and a value of at most 65535.
pub open spec fn port_of(s: Seq<char>) -> Option<u16> {
    let from: int = if s.len() > 0 && s[0] == '+' {
        1
    } else {
        0
    };
    if from < s.len() && (forall|k: int| from <= k < s.len() ==> is_digit(#[trigger] s[k]))
        && numeral(s, from, s.len() as int) <= 65535 {
        Some(numeral(s, from, s.len() as int) as u16)
    } else {
        None
    }
}

/// The first IPv4 address among `found` from `i` on.
pub open spec fn first_v4_from(found: Seq<HostAddress>, i: int) -> Option<Address>
    decreases found.len() - i,
{
    if !(0 <= i < found.len()) {
        None
    } else {
        match found[i] {
            HostAddress::V4(a) => Some(a),
            HostAddress::V6 => first_v4_from(found, i + 1),
        }
    }
}

/// The address of a host: the one that its text writes, or else the first
/// IPv4 address that the name resolved to.
pub open spec fn resolved_ip(host: Seq<char>, found: Seq<HostAddress>) -> Option<Address> {
    match parse_dotted(host) {
        Some(bits) => Some(Address { bits }),
        None => first_v4_from(found, 0),
    }
}

/// The endpoint that a text `host:port` stands for, where `found` is what the
/// host resolved to; `None` where the text has no `:`, the host has no IPv4
/// address or the port is none.
pub open spec fn resolved_endpoint(addr: Seq<char>, found: Seq<HostAddress>) -> Option<Endpoint> {
    if split_point(addr) is None {
        None
    } else {
        match (resolved_ip(host_of(addr), found), port_of(port_text_of(addr))) {
            (Some(ip), Some(port)) => Some(Endpoint { ip, port }),
            _ => None,
        }
    }
}

/// The failure that stands in the way of `resolved_endpoint`, where it is
/// `None`: a text without `:`, then a host without an address, then a text
/// that is no port, which std words.
pub open spec fn endpoint_failure(addr: Seq<char>, found: Seq<HostAddress>) -> Failure {
    if split_point(addr) is None {
        Failure::worded(ErrorKind::Addressing, "invalid input parameter"@)
    } else if resolved_ip(host_of(addr), found) is None {
        Failure::worded(ErrorKind::Addressing, "invalid IPv4 address syntax"@)
    } else {
        Failure::of_kind(ErrorKind::Addressing)
    }
}

/// `str::parse::<u16>`: the text is an optional `+` and then decimal digits
/// only, and the number fits; the result is that number.
#[verifier::external_body]
fn read_port(text: &str) -> (r: Result<u16, std::num::ParseIntError>)
    ensures
        match r {
            Ok(port) => port_of(text@) == Some(port),
            Err(_) => port_of(text@) is None,
        },
{
    text.parse::<u16>()
}

/// The text that std shows for a failed integer parse. Nothing is claimed of it.
#[verifier::external_body]
fn port_error_text(e: &std::num::ParseIntError) -> String {
    e.to_string()
}

/// `Rng::gen_range` on the thread's generator: some number of the range.
#[verifier::external_body]
fn random_high_port() -> (r: i32)
    ensures
        32768 <= r < 65536,
{
    rand::thread_rng().gen_range(32768..65536)
}

/// Splits an endpoint text into host and port text; `None` where it has no `:`.
pub fn split_endpoint(addr: &str) -> (r: Option<(String, String)>)
    ensures
        match r {
            Some((host, port)) => split_point(addr@) is Some && host@ == host_of(addr@) && port@
                == port_text_of(addr@),
            None => split_point(addr@) is None,
        },
{
    let bytes = addr.as_bytes();
    let mut n: usize = bytes.len();
    while n > 0 && bytes[n - 1] != 0x3a
        invariant
            n <= bytes@.len(),
            last_colon(bytes@, bytes@.len() as int) == last_colon(bytes@, n as int),
        decreases n,
    {
        n = n - 1;
    }
    if n == 0 {
        return None;
    }
    let index: usize = n - 1;
    let len = addr.unicode_len();
    let cut: usize = if index < len {
        index
    } else {
        len
    };
    let host = addr.substring_char(0, cut).to_owned();
    let port = if cut + 1 < len {
        addr.substring_char(cut + 1, len).to_owned()
    } else {
        String::new()
    };
    Some((host, port))
}

/// Reads a port. A text that is no port is an addressing error.
pub fn parse_port(text: &str) -> (r: Result<u16, Error>)
    ensures
        match r {
            Ok(port) => port_of(text@) == Some(port),
            Err(e) => port_of(text@) is None && e@.kind == ErrorKind::Addressing,
        },
{
    match read_port(text) {
        Ok(port) => Ok(port),
        Err(e) => Err(Error::with_kind(ErrorKind::Addressing, port_error_text(&e))),
    }
}

/// The first IPv4 address among those that a name resolved to.
pub fn first_v4(found: &Vec<HostAddress>) -> (r: Option<Address>)
    ensures
        r == first_v4_from(found@, 0),
{
    let mut i: usize = 0;
    while i < found.len()
        invariant
            i <= found@.len(),
            first_v4_from(found@, 0) == first_v4_from(found@, i as int),
        decreases found@.len() - i,
    {
        match found[i] {
            HostAddress::V4(a) => {
                return Some(a);
            },
            HostAddress::V6 => {},
        }
        i = i + 1;
    }
    None
}

/// Resolves a host. A dotted-quad text is its own address and `found` is not
/// looked at; any other text has the first IPv4 address of `found`, which is
/// what the name resolved to. Where there is none, the text is reported as no
/// address.
pub fn resolve_ip(url: &str, found: &Vec<HostAddress>) -> (r: Result<Address, Error>)
    ensures
        match r {
            Ok(ip) => resolved_ip(url@, found@) == Some(ip),
            Err(e) => resolved_ip(url@, found@) is None && e@.kind == ErrorKind::Addressing
                && e@.message == "invalid IPv4 address syntax"@,
        },
{
    match Address::parse(url) {
        Some(ip) => Ok(ip),
        None => match first_v4(found) {
            Some(ip) => Ok(ip),
            None => Err(Error::describe(ErrorKind::Addressing, "invalid IPv4 address syntax")),
        },
    }
}

/// Whether the host of an endpoint text has to be looked up: the text has a
/// `:` and its host is no dotted quad. The host is returned with the answer.
pub fn host_to_look_up(addr: &str) -> (r: Option<String>)
    ensures
        match r {
            Some(host) => split_point(addr@) is Some && host@ == host_of(addr@) && parse_dotted(
                host_of(addr@),
            ) is None,
            None => split_point(addr@) is None || parse_dotted(host_of(addr@)) is Some,
        },
{
    match split_endpoint(addr) {
        None => None,
        Some((host, _)) => match Address::parse(host.as_str()) {
            Some(_) => None,
            None => Some(host),
        },
    }
}

/// Resolves an endpoint text `host:port`, where `found` is what the host
/// resolved to. The host is resolved first, then the port is read: each
/// failure is an addressing error, and so is a text without a `:`.
pub fn resolve_addr(addr: &str, found: &Vec<HostAddress>) -> (r: Result<Endpoint, Error>)
    ensures
        match r {
            Ok(endpoint) => resolved_endpoint(addr@, found@) == Some(endpoint),
            Err(e) => resolved_endpoint(addr@, found@) is None && e.reports(
                endpoint_failure(addr@, found@),
            ),
        },
{
    match split_endpoint(addr) {
        None => Err(Error::describe(ErrorKind::Addressing, "invalid input parameter")),
        Some((host, port)) => {
            let ip = match resolve_ip(host.as_str(), found) {
                Ok(ip) => ip,
                Err(e) => {
                    return Err(e);
                },
            };
            let port = match parse_port(port.as_str()) {
                Ok(port) => port,
                Err(e) => {
                    return Err(e);
                },
            };
            Ok(Endpoint { ip, port })
        },
    }
}

/// The loopback endpoint with the given port.
pub fn local_endpoint(port: u16) -> (r: Endpoint)
    ensures
        r.ip.bits == assemble(127, 0, 0, 1),
        r.port == port,
{
    Endpoint { ip: Address::new(127, 0, 0, 1), port }
}

/// A loopback endpoint with a port picked at random from 32768 on.
pub fn random_local_addr() -> (r: Endpoint)
    ensures
        r.ip.bits == assemble(127, 0, 0, 1),
        r.port >= 32768,
{
    let port = random_high_port();
    local_endpoint(port as u16)
}

} // verus!

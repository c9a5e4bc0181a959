//! IPv4 networks in CIDR notation: an address and a prefix length.

use crate::address::{dotted, Address};
use crate::error::{Error, ErrorKind};
use vstd::arithmetic::power2::{lemma2_to64, lemma_pow2_strictly_increases, pow2};
use vstd::prelude::*;
use vstd::string::*;

verus! {

#[verifier::external_type_specification]
#[verifier::external_body]
pub struct ExIpNetworkError(ipnetwork::IpNetworkError);

/// The mask of a prefix length of at most 32: that many leading one bits,
/// then zero bits.
pub open spec fn prefix_mask(prefix: u8) -> u32 {
    (!(0xffff_ffffu64 >> (prefix as u64)) & 0xffff_ffffu64) as u32
}

/// The address and prefix length that `ipnetwork` reads from a text in CIDR
/// notation; `None` where it refuses the text.
pub uninterp spec fn cidr_of(text: Seq<char>) -> Option<(u32, u8)>;

/// `Ipv4Network::from_str`: the outcome is a function of the text alone, and a
/// network that it accepts has a prefix length of at most 32.
#[verifier::external_body]
fn read_cidr(text: &str) -> (r: Result<(u32, u8), ipnetwork::IpNetworkError>)
    ensures
        match r {
            Ok(p) => cidr_of(text@) == Some(p) && p.1 <= 32,
            Err(_) => cidr_of(text@) is None,
        },
{
    match text.parse::<ipnetwork::Ipv4Network>() {
        Ok(n) => Ok((u32::from(n.ip()), n.prefix())),
        Err(e) => Err(e),
    }
}

/// The text that `ipnetwork` shows for one of its errors. Nothing is claimed of it.
#[verifier::external_body]
fn cidr_error_text(e: &ipnetwork::IpNetworkError) -> String {
    e.to_string()
}

/// `Ipv4Network::mask`: the prefix length's leading bits set, the others clear.
#[verifier::external_body]
fn mask_bits(address: u32, prefix: u8) -> (r: u32)
    requires
        prefix <= 32,
    ensures
        r == prefix_mask(prefix),
{
    u32::from(ipnetwork::Ipv4Network::new(address.into(), prefix).unwrap().mask())
}

/// `Ipv4Network::network`: the address with the bits outside the mask cleared.
#[verifier::external_body]
fn network_bits(address: u32, prefix: u8) -> (r: u32)
    requires
        prefix <= 32,
    ensures
        r == address & prefix_mask(prefix),
{
    u32::from(ipnetwork::Ipv4Network::new(address.into(), prefix).unwrap().network())
}

/// `Ipv4Network::broadcast`: the address with the bits outside the mask set.
#[verifier::external_body]
fn broadcast_bits(address: u32, prefix: u8) -> (r: u32)
    requires
        prefix <= 32,
    ensures
        r == address | !prefix_mask(prefix),
{
    u32::from(ipnetwork::Ipv4Network::new(address.into(), prefix).unwrap().broadcast())
}

/// `Ipv4Network::size`: two to the power of the number of host bits. A prefix
/// length of 0 is left out: the power does not fit in 32 bits.
#[verifier::external_body]
fn size_of(address: u32, prefix: u8) -> (r: u32)
    requires
        1 <= prefix <= 32,
    ensures
        r == pow2((32 - prefix) as nat),
{
    ipnetwork::Ipv4Network::new(address.into(), prefix).unwrap().size()
}

/// An IPv4 network: an address and a prefix length of at most 32. The address
/// may have host bits set.
#[derive(Clone, Copy, Debug, PartialEq, Eq)]
pub struct Network {
    address: Address,
    prefix: u8,
}

impl Network {
    #[verifier::type_invariant]
    closed spec fn within_bounds(self) -> bool {
        self.prefix <= 32
    }

    /// The address that the network was declared with.
    pub closed spec fn declared(self) -> Address {
        self.address
    }

    /// The prefix length.
    pub closed spec fn length(self) -> u8 {
        self.prefix
    }

    /// The network with the given address and prefix length.
    pub closed spec fn of(address: Address, prefix: u8) -> Network {
        Network { address, prefix }
    }

    /// A network is its address and its prefix length, and nothing more.
    pub broadcast proof fn of_parts(address: Address, prefix: u8)
        ensures
            (#[trigger] Network::of(address, prefix)).declared() == address,
            Network::of(address, prefix).length() == prefix,
    {
    }

    /// A network is the one made of its address and its prefix length.
    pub broadcast proof fn of_own_parts(self)
        ensures
            Network::of(#[trigger] self.declared(), self.length()) == self,
    {
    }

    /// The text for the range of the network: its one address, or its lowest
    /// and its highest address with ` - ` between them.
    pub open spec fn range_text(self) -> Seq<char> {
        if self.length() == 32 {
            dotted(self.network_of().bits)
        } else {
            dotted(self.network_of().bits) + seq![' ', '-', ' '] + dotted(self.broadcast_of().bits)
        }
    }

    /// Whether the prefix length is one that a network can have.
    pub open spec fn wf(self) -> bool {
        self.length() <= 32
    }

    /// The mask of the network, as contracts speak of it.
    pub open spec fn mask_of(self) -> Address {
        Address { bits: prefix_mask(self.length()) }
    }

    /// The lowest address of the network, as contracts speak of it.
    pub open spec fn network_of(self) -> Address {
        Address { bits: self.declared().bits & prefix_mask(self.length()) }
    }

    /// The highest address of the network, as contracts speak of it.
    pub open spec fn broadcast_of(self) -> Address {
        Address { bits: self.declared().bits | !prefix_mask(self.length()) }
    }

    /// The network of `address` with `prefix` leading network bits; `None`
    /// where `prefix` is over 32.
    pub fn new(address: Address, prefix: u8) -> (r: Option<Network>)
        ensures
            r is Some <==> prefix <= 32,
            r matches Some(n) ==> n == Network::of(address, prefix),
    {
        if prefix > 32 {
            None
        } else {
            Some(Network { address, prefix })
        }
    }

    /// The network of the single address `address`.
    pub fn host(address: Address) -> (r: Network)
        ensures
            r == Network::of(address, 32),
    {
        Network { address, prefix: 32 }
    }

    /// Reads a network in CIDR notation. The text is accepted exactly where
    /// `ipnetwork` accepts it; a refusal is an addressing error.
    pub fn parse(text: &str) -> (r: Result<Network, Error>)
        ensures
            match r {
                Ok(n) => cidr_of(text@) == Some((n.declared().bits, n.length())) && n.wf(),
                Err(e) => cidr_of(text@) is None && e@.kind == ErrorKind::Addressing,
            },
    {
        match read_cidr(text) {
            Ok((bits, prefix)) => Ok(Network { address: Address { bits }, prefix }),
            Err(e) => Err(Error::with_kind(ErrorKind::Addressing, cidr_error_text(&e))),
        }
    }

    /// The address that the network was declared with.
    pub fn ip(&self) -> (r: Address)
        ensures
            r == self.declared(),
    {
        self.address
    }

    /// The prefix length.
    pub fn prefix(&self) -> (r: u8)
        ensures
            r == self.length(),
            r <= 32,
    {
        proof {
            use_type_invariant(self);
        }
        self.prefix
    }

    /// The mask of the network.
    pub fn mask(&self) -> (r: Address)
        ensures
            r == self.mask_of(),
            self.wf(),
    {
        proof {
            use_type_invariant(self);
        }
        Address { bits: mask_bits(self.address.bits, self.prefix) }
    }

    /// The lowest address of the network.
    pub fn network(&self) -> (r: Address)
        ensures
            r == self.network_of(),
    {
        proof {
            use_type_invariant(self);
        }
        Address { bits: network_bits(self.address.bits, self.prefix) }
    }

    /// The highest address of the network.
    pub fn broadcast(&self) -> (r: Address)
        ensures
            r == self.broadcast_of(),
    {
        proof {
            use_type_invariant(self);
        }
        Address { bits: broadcast_bits(self.address.bits, self.prefix) }
    }

    /// The text for the range of the network.
    pub fn describe_range(&self) -> (r: String)
        ensures
            r@ == self.range_text(),
    {
        if self.is_single() {
            self.network().to_string()
        } else {
            proof {
                reveal_strlit(" - ");
            }
            let mut text = self.network().to_string();
            text.append(" - ");
            let ghost middle = text@;
            text.append(self.broadcast().to_string().as_str());
            assert(text@ =~= self.range_text());
            text
        }
    }

    /// Whether the network is a single address.
    pub fn is_single(&self) -> (r: bool)
        ensures
            r <==> self.length() == 32,
    {
        proof {
            use_type_invariant(self);
        }
        if self.prefix == 0 {
            false
        } else {
            let size = size_of(self.address.bits, self.prefix);
            proof {
                lemma2_to64();
                if self.prefix < 32 {
                    lemma_pow2_strictly_increases(0, (32 - self.prefix) as nat);
                }
            }
            size == 1
        }
    }
}

} // verus!

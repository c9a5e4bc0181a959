//! Inference of the subnet mask that a device should use, from the network it
//! was declared with and the gateway it will see.

use crate::address::{assemble, octet, Address};
use crate::network::{prefix_mask, Network};
use vstd::prelude::*;

verus! {

/// Whether octet `i` can be trusted as part of the mask: the declared mask
/// covers it whole, and network address and gateway agree on it.
pub open spec fn octet_trusted(network: u32, mask: u32, gateway: u32, i: int) -> bool {
    octet(mask, i) == 0xff && octet(network, i) == octet(gateway, i)
}

/// How many octets, from the first on, are trusted without a gap.
pub open spec fn trusted_octets(network: u32, mask: u32, gateway: u32) -> nat {
    if !octet_trusted(network, mask, gateway, 0) {
        0
    } else if !octet_trusted(network, mask, gateway, 1) {
        1
    } else if !octet_trusted(network, mask, gateway, 2) {
        2
    } else if !octet_trusted(network, mask, gateway, 3) {
        3
    } else {
        4
    }
}

/// The mask inferred for a network with the given address and prefix length
/// behind the given gateway: the mask of as many whole octets as are trusted.
pub open spec fn inferred_mask(address: u32, prefix: u8, gateway: u32) -> u32 {
    let mask = prefix_mask(prefix);
    prefix_mask((8 * trusted_octets(address & mask, mask, gateway)) as u8)
}

/// The mask inferred for the network `src` behind the gateway `gw`.
pub open spec fn inferred(src: Network, gw: Address) -> Address {
    Address { bits: inferred_mask(src.declared().bits, src.length(), gw.bits) }
}

/// The candidate for one octet of the mask: the bits that the declared mask
/// has and on which network address and gateway agree.
pub open spec fn candidate(network: u8, mask: u8, gateway: u8) -> u8 {
    !(network ^ gateway) & mask
}

proof fn candidate_full(network: u8, mask: u8, gateway: u8)
    ensures
        candidate(network, mask, gateway) == 0xff <==> (mask == 0xff && network == gateway),
{
    assert((!(network ^ gateway) & mask == 0xff) <==> (mask == 0xff && network == gateway))
        by (bit_vector);
}

proof fn whole_octet_masks()
    ensures
        prefix_mask(0) == 0,
        prefix_mask(0) == assemble(0, 0, 0, 0),
        prefix_mask(8) == assemble(0xff, 0, 0, 0),
        prefix_mask(16) == assemble(0xff, 0xff, 0, 0),
        prefix_mask(24) == assemble(0xff, 0xff, 0xff, 0),
        prefix_mask(32) == assemble(0xff, 0xff, 0xff, 0xff),
{
    assert(((!(0xffff_ffffu64 >> 0u64) & 0xffff_ffffu64) as u32) == 0u32) by (bit_vector);
    assert(((!(0xffff_ffffu64 >> 0u64) & 0xffff_ffffu64) as u32) == ((0u8 as u32) << 24) | ((
    0u8 as u32) << 16) | ((0u8 as u32) << 8) | (0u8 as u32)) by (bit_vector);
    assert(((!(0xffff_ffffu64 >> 8u64) & 0xffff_ffffu64) as u32) == ((0xffu8 as u32) << 24) | ((
    0u8 as u32) << 16) | ((0u8 as u32) << 8) | (0u8 as u32)) by (bit_vector);
    assert(((!(0xffff_ffffu64 >> 16u64) & 0xffff_ffffu64) as u32) == ((0xffu8 as u32) << 24) | ((
    0xffu8 as u32) << 16) | ((0u8 as u32) << 8) | (0u8 as u32)) by (bit_vector);
    assert(((!(0xffff_ffffu64 >> 24u64) & 0xffff_ffffu64) as u32) == ((0xffu8 as u32) << 24) | ((
    0xffu8 as u32) << 16) | ((0xffu8 as u32) << 8) | (0u8 as u32)) by (bit_vector);
    assert(((!(0xffff_ffffu64 >> 32u64) & 0xffff_ffffu64) as u32) == ((0xffu8 as u32) << 24) | ((
    0xffu8 as u32) << 16) | ((0xffu8 as u32) << 8) | (0xffu8 as u32)) by (bit_vector);
}

/// Infers the mask for the device: octet by octet, a bit is kept where the
/// declared mask has it and the network address and the gateway agree; from
/// the first octet that is not kept whole, everything is cleared.
pub fn calc_mask(src: Network, gw: Address) -> (mask: Address)
    ensures
        mask == inferred(src, gw),
        exists|k: u8| k <= src.length() && k % 8 == 0 && mask.bits == #[trigger] prefix_mask(k),
{
    let src_octets = src.network().octets();
    let mask_octets = src.mask().octets();
    let gw_octets = gw.octets();
    let ghost network = src.declared().bits & prefix_mask(src.length());
    let ghost declared = prefix_mask(src.length());

    let mut octets: [u8; 4] = [
        !(src_octets[0] ^ gw_octets[0]) & mask_octets[0],
        !(src_octets[1] ^ gw_octets[1]) & mask_octets[1],
        !(src_octets[2] ^ gw_octets[2]) & mask_octets[2],
        !(src_octets[3] ^ gw_octets[3]) & mask_octets[3],
    ];
    proof {
        candidate_full(src_octets[0], mask_octets[0], gw_octets[0]);
        candidate_full(src_octets[1], mask_octets[1], gw_octets[1]);
        candidate_full(src_octets[2], mask_octets[2], gw_octets[2]);
        candidate_full(src_octets[3], mask_octets[3], gw_octets[3]);
    }
    let mut is_zero = false;
    let mut i: usize = 0;
    while i < 4
        invariant
            i <= 4,
            forall|k: int|
                i <= k < 4 ==> (#[trigger] octets[k] == 0xff <==> octet_trusted(
                    network,
                    declared,
                    gw.bits,
                    k,
                )),
            is_zero <==> trusted_octets(network, declared, gw.bits) < i,
            forall|k: int|
                0 <= k < i ==> #[trigger] octets[k] == (if k < trusted_octets(
                    network,
                    declared,
                    gw.bits,
                ) {
                    0xffu8
                } else {
                    0u8
                }),
        decreases 4 - i,
    {
        if is_zero || octets[i] != u8::MAX {
            octets[i] = 0;
            is_zero = true;
        }
        i = i + 1;
    }
    proof {
        whole_octet_masks();
        inferred_mask_is_a_prefix(src, gw);
    }
    Address::new(octets[0], octets[1], octets[2], octets[3])
}

/// An octet of a prefix mask is all ones exactly where the prefix covers it whole.
pub proof fn full_octets_of_prefix_mask(prefix: u8)
    requires
        prefix <= 32,
    ensures
        octet(prefix_mask(prefix), 0) == 0xff <==> prefix >= 8,
        octet(prefix_mask(prefix), 1) == 0xff <==> prefix >= 16,
        octet(prefix_mask(prefix), 2) == 0xff <==> prefix >= 24,
        octet(prefix_mask(prefix), 3) == 0xff <==> prefix >= 32,
{
    let m: u32 = prefix_mask(prefix);
    let a: u32 = (m >> 24) & 0xff;
    let b: u32 = (m >> 16) & 0xff;
    let c: u32 = (m >> 8) & 0xff;
    let d: u32 = m & 0xff;
    assert(a < 256 && b < 256 && c < 256 && d < 256 && (a == 0xff <==> prefix >= 8) && (b == 0xff
        <==> prefix >= 16) && (c == 0xff <==> prefix >= 24) && (d == 0xff <==> prefix >= 32))
        by (bit_vector)
        requires
            prefix <= 32,
            m == ((!(0xffff_ffffu64 >> (prefix as u64)) & 0xffff_ffffu64) as u32),
            a == (m >> 24) & 0xff,
            b == (m >> 16) & 0xff,
            c == (m >> 8) & 0xff,
            d == m & 0xff,
    ;
}

/// Behind a gateway that is the network's own lowest address, the inferred
/// mask is the declared prefix cut down to whole octets.
pub proof fn mask_behind_own_address(src: Network, gw: Address)
    requires
        src.wf(),
        gw == src.network_of(),
    ensures
        inferred(src, gw).bits == prefix_mask((src.length() / 8 * 8) as u8),
{
    full_octets_of_prefix_mask(src.length());
}

/// Behind a gateway that is the network's own lowest address, a network whose
/// prefix is a whole number of octets gets its declared mask.
pub proof fn own_address_keeps_mask(src: Network, gw: Address)
    requires
        src.wf(),
        src.length() % 8 == 0,
        gw == src.network_of(),
    ensures
        inferred(src, gw) == src.mask_of(),
{
    mask_behind_own_address(src, gw);
}

/// Where network address and gateway differ in the first octet, the inferred
/// mask is 0.0.0.0.
pub proof fn first_octet_disagreement_clears_mask(src: Network, gw: Address)
    requires
        src.wf(),
        octet(src.network_of().bits, 0) != octet(gw.bits, 0),
    ensures
        inferred(src, gw).bits == 0,
{
    whole_octet_masks();
}

/// The inferred mask depends on the network and the gateway alone.
pub proof fn inference_is_a_function(src: Network, gw: Address, src2: Network, gw2: Address)
    requires
        src == src2,
        gw == gw2,
    ensures
        inferred(src, gw) == inferred(src2, gw2),
{
}

/// The inferred mask is a prefix mask of whole octets, no longer than the
/// declared prefix.
pub proof fn inferred_mask_is_a_prefix(src: Network, gw: Address)
    requires
        src.wf(),
    ensures
        exists|k: u8|
            k <= src.length() && k % 8 == 0 && inferred(src, gw).bits == #[trigger] prefix_mask(k),
{
    full_octets_of_prefix_mask(src.length());
    let mask = prefix_mask(src.length());
    let k = (8 * trusted_octets(src.declared().bits & mask, mask, gw.bits)) as u8;
    assert(inferred(src, gw).bits == prefix_mask(k));
}

} // verus!

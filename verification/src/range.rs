//! The block of addresses under a prefix: its netmask, its first and last
//! address, and what holds of them.

use crate::count::{lemma_pow2_fits, lemma_pow2_top};
use vstd::arithmetic::power2::{lemma2_to64, lemma_pow2_unfold, pow2};
use vstd::prelude::*;

verus! {

/// Netmask of an IPv4 prefix: the `prefix` leading bits set.
pub open spec fn v4_netmask(prefix: u8) -> u32 {
    if prefix == 0 {
        0u32
    } else if prefix >= 32 {
        0xffff_ffffu32
    } else {
        0xffff_ffffu32 << ((32 - prefix) as u32)
    }
}

/// Netmask of an IPv6 prefix: the `prefix` leading bits set.
pub open spec fn v6_netmask(prefix: u8) -> u128 {
    if prefix == 0 {
        0u128
    } else if prefix >= 128 {
        0xffff_ffff_ffff_ffff_ffff_ffff_ffff_ffffu128
    } else {
        0xffff_ffff_ffff_ffff_ffff_ffff_ffff_ffffu128 << ((128 - prefix) as u128)
    }
}

/// First address of an IPv4 block: the host bits cleared.
pub open spec fn v4_network(addr: u32, prefix: u8) -> u32 {
    addr & v4_netmask(prefix)
}

/// Last address of an IPv4 block: the host bits set.
pub open spec fn v4_broadcast(addr: u32, prefix: u8) -> u32 {
    addr | !v4_netmask(prefix)
}

/// First address of an IPv6 block: the host bits cleared.
pub open spec fn v6_network(addr: u128, prefix: u8) -> u128 {
    addr & v6_netmask(prefix)
}

/// Last address of an IPv6 block: the host bits set.
pub open spec fn v6_broadcast(addr: u128, prefix: u8) -> u128 {
    addr | !v6_netmask(prefix)
}

/// The host bits of an IPv4 prefix: every bit outside the netmask.
pub open spec fn v4_hostmask(prefix: u8) -> u32 {
    !v4_netmask(prefix)
}

/// The host bits of an IPv6 prefix: every bit outside the netmask.
pub open spec fn v6_hostmask(prefix: u8) -> u128 {
    !v6_netmask(prefix)
}

/// In the first address of an IPv4 block every host bit is cleared, in the
/// last every host bit is set; both keep the network bits of the address,
/// which lies between them.
pub proof fn lemma_v4_range_bits(addr: u32, prefix: u8)
    ensures
        v4_network(addr, prefix) & v4_hostmask(prefix) == 0,
        v4_broadcast(addr, prefix) & v4_hostmask(prefix) == v4_hostmask(prefix),
        v4_network(addr, prefix) & v4_netmask(prefix) == addr & v4_netmask(prefix),
        v4_broadcast(addr, prefix) & v4_netmask(prefix) == addr & v4_netmask(prefix),
        v4_network(addr, prefix) <= addr <= v4_broadcast(addr, prefix),
{
    let m = v4_netmask(prefix);
    assert((addr & m) & !m == 0 && (addr | !m) & !m == !m && (addr & m) & m == addr & m && (addr
        | !m) & m == addr & m && addr & m <= addr && addr <= addr | !m) by (bit_vector);
}

/// In the first address of an IPv6 block every host bit is cleared, in the
/// last every host bit is set; both keep the network bits of the address,
/// which lies between them.
pub proof fn lemma_v6_range_bits(addr: u128, prefix: u8)
    ensures
        v6_network(addr, prefix) & v6_hostmask(prefix) == 0,
        v6_broadcast(addr, prefix) & v6_hostmask(prefix) == v6_hostmask(prefix),
        v6_network(addr, prefix) & v6_netmask(prefix) == addr & v6_netmask(prefix),
        v6_broadcast(addr, prefix) & v6_netmask(prefix) == addr & v6_netmask(prefix),
        v6_network(addr, prefix) <= addr <= v6_broadcast(addr, prefix),
{
    let m = v6_netmask(prefix);
    assert((addr & m) & !m == 0 && (addr | !m) & !m == !m && (addr & m) & m == addr & m && (addr
        | !m) & m == addr & m && addr & m <= addr && addr <= addr | !m) by (bit_vector);
}

/// Two IPv4 addresses with the same network bits lie in the same block:
/// the host bits of an address do not move the range.
pub proof fn lemma_v4_range_ignores_host_bits(a: u32, b: u32, prefix: u8)
    requires
        a & v4_netmask(prefix) == b & v4_netmask(prefix),
    ensures
        v4_network(a, prefix) == v4_network(b, prefix),
        v4_broadcast(a, prefix) == v4_broadcast(b, prefix),
{
    let m = v4_netmask(prefix);
    assert(a & m == b & m ==> (a | !m) == (b | !m)) by (bit_vector);
}

/// Two IPv6 addresses with the same network bits lie in the same block:
/// the host bits of an address do not move the range.
pub proof fn lemma_v6_range_ignores_host_bits(a: u128, b: u128, prefix: u8)
    requires
        a & v6_netmask(prefix) == b & v6_netmask(prefix),
    ensures
        v6_network(a, prefix) == v6_network(b, prefix),
        v6_broadcast(a, prefix) == v6_broadcast(b, prefix),
{
    let m = v6_netmask(prefix);
    assert(a & m == b & m ==> (a | !m) == (b | !m)) by (bit_vector);
}

/// A one shifted left by less than 128 places is that power of two.
pub proof fn lemma_shl_is_pow2(shift: u128)
    requires
        shift < 128,
    ensures
        1u128 << shift == pow2(shift as nat),
    decreases shift,
{
    lemma2_to64();
    if shift == 0 {
        assert(1u128 << 0u128 == 1u128) by (bit_vector);
    } else {
        let less: u128 = (shift - 1) as u128;
        lemma_shl_is_pow2(less);
        lemma_pow2_unfold(shift as nat);
        lemma_pow2_fits(less as nat);
        lemma_pow2_fits(shift as nat);
        let half: u128 = 1u128 << less;
        assert(1u128 << shift == (half << 1u128)) by (bit_vector)
            requires
                0 < shift < 128,
                less == shift - 1,
                half == 1u128 << less,
        ;
        assert(half << 1u128 == half * 2) by (bit_vector)
            requires
                half <= 0x4000_0000_0000_0000_0000_0000_0000_0000u128,
        ;
    }
}

/// The host bits of an IPv4 prefix, read as a number, are one less than
/// `2^(32 - prefix)`: the netmask has exactly `prefix` leading ones.
pub proof fn lemma_v4_hostmask_value(prefix: u8)
    requires
        prefix <= 32,
    ensures
        v4_hostmask(prefix) + 1 == pow2((32 - prefix) as nat),
{
    lemma2_to64();
    if 0 < prefix < 32 {
        let shift: u128 = (32 - prefix) as u128;
        let s32: u32 = (32 - prefix) as u32;
        lemma_shl_is_pow2(shift);
        let one: u128 = 1u128 << shift;
        let mask: u32 = 0xffff_ffffu32 << s32;
        assert(!mask as u128 + 1 == one) by (bit_vector)
            requires
                0 < s32 < 32,
                shift == s32 as u128,
                one == 1u128 << shift,
                mask == 0xffff_ffffu32 << s32,
        ;
    } else if prefix == 0 {
        assert(!0u32 == 0xffff_ffffu32) by (bit_vector);
    } else {
        assert(!0xffff_ffffu32 == 0u32) by (bit_vector);
    }
}

/// The host bits of an IPv6 prefix, read as a number, are one less than
/// `2^(128 - prefix)`: the netmask has exactly `prefix` leading ones.
pub proof fn lemma_v6_hostmask_value(prefix: u8)
    requires
        prefix <= 128,
    ensures
        v6_hostmask(prefix) + 1 == pow2((128 - prefix) as nat),
{
    lemma2_to64();
    if 0 < prefix < 128 {
        let shift: u128 = (128 - prefix) as u128;
        lemma_shl_is_pow2(shift);
        let one: u128 = 1u128 << shift;
        let mask: u128 = 0xffff_ffff_ffff_ffff_ffff_ffff_ffff_ffffu128 << shift;
        assert(!mask == one - 1) by (bit_vector)
            requires
                0 < shift < 128,
                one == 1u128 << shift,
                mask == 0xffff_ffff_ffff_ffff_ffff_ffff_ffff_ffffu128 << shift,
        ;
        assert(one >= 1) by (bit_vector)
            requires
                0 < shift < 128,
                one == 1u128 << shift,
        ;
    } else if prefix == 0 {
        assert(!0u128 == 0xffff_ffff_ffff_ffff_ffff_ffff_ffff_ffffu128) by (bit_vector);
        lemma_pow2_top();
    } else {
        assert(!0xffff_ffff_ffff_ffff_ffff_ffff_ffff_ffffu128 == 0u128) by (bit_vector);
    }
}

/// An IPv4 block holds `2^(32 - prefix)` addresses: so many lie from its
/// first address to its last.
pub proof fn lemma_v4_block_size(addr: u32, prefix: u8)
    requires
        prefix <= 32,
    ensures
        v4_broadcast(addr, prefix) - v4_network(addr, prefix) + 1 == pow2((32 - prefix) as nat),
{
    let m = v4_netmask(prefix);
    lemma_v4_hostmask_value(prefix);
    assert((addr | !m) - (addr & m) == !m && (addr | !m) >= (addr & m)) by (bit_vector);
}

/// An IPv6 block holds `2^(128 - prefix)` addresses: so many lie from its
/// first address to its last.
pub proof fn lemma_v6_block_size(addr: u128, prefix: u8)
    requires
        prefix <= 128,
    ensures
        v6_broadcast(addr, prefix) - v6_network(addr, prefix) + 1 == pow2((128 - prefix) as nat),
{
    let m = v6_netmask(prefix);
    lemma_v6_hostmask_value(prefix);
    assert((addr | !m) - (addr & m) == !m && (addr | !m) >= (addr & m)) by (bit_vector);
}

} // verus!

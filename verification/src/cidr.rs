//! Networks in CIDR notation: an address and the number of its leading bits
//! that name the network.
//!
//! The text of a network is read by the `ipnetwork` crate, which also
//! computes the first and last address of a block. What the crate hands back
//! is held here as plain integers in a [`Cidr`], so that the rules around it
//! can be stated and proved. The functions marked "Trusted" make the calls:
//! their contracts are believed, not proved.

use crate::count::{checked_pow2, checked_pow2_spec, lemma_pow2_fits};
use crate::range::{v4_broadcast, v4_network, v6_broadcast, v6_network};
use crate::text::{format_ipv4, ipv4_text};
use vstd::arithmetic::power2::pow2;
use vstd::prelude::*;
use vstd::string::StrSliceExecFns;

verus! {

/// Width of an IPv4 address in bits.
pub const V4_BITS: u8 = 32;

/// Width of an IPv6 address in bits.
pub const V6_BITS: u8 = 128;

/// A network: an address of one of the two families, as an integer whose
/// most significant octet is the first of the address, and a prefix length.
/// The address keeps whatever host bits it was given.
#[allow(inconsistent_fields)]
#[derive(Clone, Copy, Debug, PartialEq, Eq, Structural)]
pub enum Cidr {
    V4 { addr: u32, prefix: u8 },
    V6 { addr: u128, prefix: u8 },
}

/// Textual form of an IPv6 address as the standard library writes it
/// (colon-separated hexadecimal groups, the longest run of zero groups
/// compressed). The notation is not spelled out here: it is a function of
/// the address alone.
pub uninterp spec fn ipv6_text(addr: u128) -> Seq<char>;

/// What `ipnetwork` reads from a text: the network, or nothing where the
/// text is not one. A function of the text alone.
pub uninterp spec fn parsed_network(text: Seq<char>) -> Option<Cidr>;

impl Cidr {
    /// The prefix is no longer than the address.
    pub open spec fn wf(self) -> bool {
        match self {
            Cidr::V4 { prefix, .. } => prefix <= 32,
            Cidr::V6 { prefix, .. } => prefix <= 128,
        }
    }

    /// 4 or 6.
    pub open spec fn ip_version(self) -> u8 {
        match self {
            Cidr::V4 { .. } => 4,
            Cidr::V6 { .. } => 6,
        }
    }

    /// Number of leading bits that name the network.
    pub open spec fn prefix_length(self) -> u8 {
        match self {
            Cidr::V4 { prefix, .. } => prefix,
            Cidr::V6 { prefix, .. } => prefix,
        }
    }

    /// Number of addresses in the block, as reported: `2^(32 - prefix)` for
    /// IPv4; for IPv6 `2^(128 - prefix)`, and the largest 128-bit value for
    /// prefix 0, whose true count `2^128` no 128-bit integer holds. A power
    /// that 128 bits cannot hold is absent.
    pub open spec fn num_ips(self) -> Option<u128> {
        match self {
            Cidr::V4 { prefix, .. } => checked_pow2_spec((32 - prefix) as nat),
            Cidr::V6 { prefix, .. } => if prefix == 0 {
                Some(u128::MAX)
            } else {
                checked_pow2_spec((128 - prefix) as nat)
            },
        }
    }

    /// Text of the first address of the block.
    pub open spec fn range_start(self) -> Seq<char> {
        match self {
            Cidr::V4 { addr, prefix } => ipv4_text(v4_network(addr, prefix)),
            Cidr::V6 { addr, prefix } => ipv6_text(v6_network(addr, prefix)),
        }
    }

    /// Text of the last address of the block.
    pub open spec fn range_end(self) -> Seq<char> {
        match self {
            Cidr::V4 { addr, prefix } => ipv4_text(v4_broadcast(addr, prefix)),
            Cidr::V6 { addr, prefix } => ipv6_text(v6_broadcast(addr, prefix)),
        }
    }

    /// Address family as a number: 4 or 6.
    pub fn version(&self) -> (v: u8)
        ensures
            v == self.ip_version(),
            v == 4 || v == 6,
    {
        match self {
            Cidr::V4 { .. } => 4,
            Cidr::V6 { .. } => 6,
        }
    }

    /// Prefix length.
    pub fn prefix(&self) -> (p: u8)
        ensures
            p == self.prefix_length(),
    {
        match self {
            Cidr::V4 { prefix, .. } => *prefix,
            Cidr::V6 { prefix, .. } => *prefix,
        }
    }

    /// Number of addresses in the block. Always present for a well-formed
    /// network; the power is never wrapped.
    pub fn address_count(&self) -> (n: Option<u128>)
        requires
            self.wf(),
        ensures
            n == self.num_ips(),
            n.is_some(),
            self.ip_version() == 4 ==> n.unwrap() as nat == pow2((32 - self.prefix_length()) as nat),
            self.ip_version() == 6 && self.prefix_length() > 0 ==> n.unwrap() as nat == pow2(
                (128 - self.prefix_length()) as nat,
            ),
            self.ip_version() == 6 && self.prefix_length() == 0 ==> n.unwrap() == u128::MAX,
    {
        match self {
            Cidr::V4 { prefix, .. } => {
                proof {
                    lemma_pow2_fits((32 - *prefix) as nat);
                }
                checked_pow2((V4_BITS - *prefix) as u32)
            },
            Cidr::V6 { prefix, .. } => {
                if *prefix == 0 {
                    Some(u128::MAX)
                } else {
                    proof {
                        lemma_pow2_fits((128 - *prefix) as nat);
                    }
                    checked_pow2((V6_BITS - *prefix) as u32)
                }
            },
        }
    }

    /// Text of the first address of the block: all host bits cleared.
    pub fn network_text(&self) -> (text: String)
        requires
            self.wf(),
        ensures
            text@ == self.range_start(),
    {
        match self {
            Cidr::V4 { addr, prefix } => format_ipv4(v4_network_addr(*addr, *prefix)),
            Cidr::V6 { addr, prefix } => v6_network_text(*addr, *prefix),
        }
    }

    /// Text of the last address of the block: all host bits set.
    pub fn broadcast_text(&self) -> (text: String)
        requires
            self.wf(),
        ensures
            text@ == self.range_end(),
    {
        match self {
            Cidr::V4 { addr, prefix } => format_ipv4(v4_broadcast_addr(*addr, *prefix)),
            Cidr::V6 { addr, prefix } => v6_broadcast_text(*addr, *prefix),
        }
    }
}

/// An ASCII decimal digit.
pub open spec fn is_digit(c: char) -> bool {
    0x30 <= c as u32 <= 0x39
}

/// The text ends in a `/` and one or more decimal digits: the separator and
/// the prefix length of the notation.
pub open spec fn has_prefix_part(text: Seq<char>) -> bool {
    exists|i: int|
        0 <= i < text.len() - 1 && #[trigger] text[i] == '/' && forall|j: int|
            i < j < text.len() ==> is_digit(#[trigger] text[j])
}

/// The network that a text denotes: the text must end in `/` and a decimal
/// prefix length, and be read as a network by `ipnetwork`.
pub open spec fn cidr_of(text: Seq<char>) -> Option<Cidr> {
    if has_prefix_part(text) {
        parsed_network(text)
    } else {
        None
    }
}

/// Whether a character is an ASCII decimal digit.
pub fn is_digit_char(c: char) -> (r: bool)
    ensures
        r == is_digit(c),
{
    let code: u32 = c as u32;
    0x30 <= code && code <= 0x39
}

/// Whether the text ends in a `/` followed by one or more decimal digits.
/// A bare address, a netmask after the slash or a sign before the digits
/// does not count.
pub fn ends_in_prefix(text: &str) -> (r: bool)
    ensures
        r == has_prefix_part(text@),
{
    let len: usize = text.unicode_len();
    let mut start: usize = len;
    let mut scanning: bool = true;
    while scanning && start > 0
        invariant
            start <= len,
            len == text@.len(),
            forall|j: int| start <= j < len ==> is_digit(#[trigger] text@[j]),
            !scanning ==> start > 0 && !is_digit(text@[start - 1]),
        decreases start + if scanning { 1int } else { 0int },
    {
        if is_digit_char(text.get_char(start - 1)) {
            start = start - 1;
        } else {
            scanning = false;
        }
    }
    // Digits fill `start..len`, and the character before them is none: only
    // that character can be the separator.
    if start == 0 || start == len {
        return false;
    }
    text.get_char(start - 1) == '/'
}

/// Reads a network in CIDR notation: an IPv4 or IPv6 address, `/`, and the
/// prefix length in decimal digits. Anything else gives `None`: no
/// separator, no digits after it, a prefix longer than the address, a text
/// that is no address.
pub fn parse_cidr(text: &str) -> (r: Option<Cidr>)
    ensures
        r == cidr_of(text@),
        r matches Some(c) ==> c.wf(),
        !has_prefix_part(text@) ==> r.is_none(),
{
    if !ends_in_prefix(text) {
        return None;
    }
    parse_network(text)
}

/// Trusted: `ipnetwork::Ipv4Network::network`, which masks the address with
/// the netmask of the prefix. The prefix must be at most 32, else
/// `Ipv4Network::new` fails.
#[verifier::external_body]
fn v4_network_addr(addr: u32, prefix: u8) -> (first: u32)
    requires
        prefix <= 32,
    ensures
        first == v4_network(addr, prefix),
{
    ipnetwork::Ipv4Network::new(addr.into(), prefix).unwrap().network().into()
}

/// Trusted: `ipnetwork::Ipv4Network::broadcast`, which sets every bit of the
/// address outside the netmask of the prefix. The prefix must be at most
/// 32, else `Ipv4Network::new` fails.
#[verifier::external_body]
fn v4_broadcast_addr(addr: u32, prefix: u8) -> (last: u32)
    requires
        prefix <= 32,
    ensures
        last == v4_broadcast(addr, prefix),
{
    ipnetwork::Ipv4Network::new(addr.into(), prefix).unwrap().broadcast().into()
}

/// Trusted: `ipnetwork::Ipv6Network::network`, written out by the address's
/// `to_string`. `network` masks the address with the netmask of the prefix;
/// of the text only this is claimed, that it is the one the standard
/// library writes for that address. The prefix must be at most 128, else
/// `Ipv6Network::new` fails.
#[verifier::external_body]
fn v6_network_text(addr: u128, prefix: u8) -> (text: String)
    requires
        prefix <= 128,
    ensures
        text@ == ipv6_text(v6_network(addr, prefix)),
{
    ipnetwork::Ipv6Network::new(addr.into(), prefix).unwrap().network().to_string()
}

/// Trusted: `ipnetwork::Ipv6Network::broadcast`, written out by the
/// address's `to_string`. `broadcast` sets every bit outside the netmask of
/// the prefix; of the text only this is claimed, that it is the one the
/// standard library writes for that address. The prefix must be at most
/// 128, else `Ipv6Network::new` fails.
#[verifier::external_body]
fn v6_broadcast_text(addr: u128, prefix: u8) -> (text: String)
    requires
        prefix <= 128,
    ensures
        text@ == ipv6_text(v6_broadcast(addr, prefix)),
{
    ipnetwork::Ipv6Network::new(addr.into(), prefix).unwrap().broadcast().to_string()
}

/// Trusted: `str::parse::<ipnetwork::IpNetwork>`. The result is a function
/// of the text alone, so it has a name, [`parsed_network`]; nothing is
/// claimed of which texts are networks. Of a network that comes back the
/// crate's constructors guarantee that the prefix is at most 32 for IPv4 and
/// at most 128 for IPv6.
#[verifier::external_body]
fn parse_network(text: &str) -> (r: Option<Cidr>)
    ensures
        r == parsed_network(text@),
        r matches Some(c) ==> c.wf(),
{
    match text.parse::<ipnetwork::IpNetwork>() {
        Ok(ipnetwork::IpNetwork::V4(n)) => Some(Cidr::V4 { addr: n.ip().into(), prefix: n.prefix() }),
        Ok(ipnetwork::IpNetwork::V6(n)) => Some(Cidr::V6 { addr: n.ip().into(), prefix: n.prefix() }),
        Err(_) => None,
    }
}

} // verus!

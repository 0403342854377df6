//! The answer to one query: the facts of a subnet, or why there are none.

use crate::cidr::{cidr_of, has_prefix_part, ipv6_text, parse_cidr, Cidr};
use crate::count::lemma_pow2_fits;
use crate::range::{
    lemma_v4_block_size, lemma_v4_range_bits, lemma_v6_block_size, lemma_v6_range_bits,
    v4_broadcast, v4_hostmask, v4_network, v6_broadcast, v6_hostmask, v6_network,
};
use crate::text::ipv4_text;
use vstd::arithmetic::power2::pow2;
use vstd::prelude::*;

verus! {

/// Exit status for a query that named a subnet, whether or not it was one.
pub const EXIT_ANSWERED: i32 = 0;

/// Exit status for a query that named no subnet.
pub const EXIT_NO_SUBNET: i32 = 1;

/// The facts of one subnet.
#[derive(Clone, Debug, PartialEq, Eq)]
pub struct SubnetInfo {
    /// 4 or 6; 0 where nothing was derived.
    pub ip_version: u8,
    /// The queried text, as it was given.
    pub subnet: String,
    pub prefix_length: u8,
    /// Number of addresses in the block; `None` where 128 bits cannot hold it.
    pub num_ips: Option<u128>,
    /// First address of the block.
    pub range_start: String,
    /// Last address of the block.
    pub range_end: String,
}

/// Why a query has no answer.
#[derive(Clone, Copy, Debug, PartialEq, Eq, Structural)]
pub enum SubnetError {
    /// The query named no subnet at all.
    NoSubnetSpecified,
    /// The text is not a network in CIDR notation.
    InvalidFormat,
}

/// What is reported for a query: the facts, whether there are any, and the
/// message where there are none.
#[derive(Clone, Debug, PartialEq, Eq)]
pub struct JsonResponse {
    pub result: SubnetInfo,
    pub success: bool,
    pub error: String,
}

impl SubnetError {
    /// The fixed message of each failure.
    pub open spec fn text(self) -> Seq<char> {
        match self {
            SubnetError::NoSubnetSpecified => "No Subnet Specified"@,
            SubnetError::InvalidFormat => "Invalid subnet format"@,
        }
    }

    /// No failure has an empty message.
    pub proof fn lemma_text_is_not_empty(self)
        ensures
            self.text().len() > 0,
    {
        reveal_strlit("No Subnet Specified");
        reveal_strlit("Invalid subnet format");
    }

    /// The fixed message of this failure.
    pub fn message(&self) -> (m: String)
        ensures
            m@ == self.text(),
    {
        match self {
            SubnetError::NoSubnetSpecified => "No Subnet Specified".to_owned(),
            SubnetError::InvalidFormat => "Invalid subnet format".to_owned(),
        }
    }
}

impl SubnetInfo {
    /// Nothing derived: zero numbers, a count of zero, empty texts.
    pub open spec fn is_unset(self) -> bool {
        &&& self.ip_version == 0
        &&& self.subnet@.len() == 0
        &&& self.prefix_length == 0
        &&& self.num_ips == Some(0u128)
        &&& self.range_start@.len() == 0
        &&& self.range_end@.len() == 0
    }

    /// These are the facts of `cidr`, queried as `subnet`.
    pub open spec fn describes(self, subnet: Seq<char>, cidr: Cidr) -> bool {
        &&& self.ip_version == cidr.ip_version()
        &&& self.subnet@ == subnet
        &&& self.prefix_length == cidr.prefix_length()
        &&& self.num_ips == cidr.num_ips()
        &&& self.range_start@ == cidr.range_start()
        &&& self.range_end@ == cidr.range_end()
    }
}

impl Default for SubnetInfo {
    fn default() -> (info: SubnetInfo)
        ensures
            info.is_unset(),
    {
        SubnetInfo {
            ip_version: 0,
            subnet: String::new(),
            prefix_length: 0,
            num_ips: Some(0),
            range_start: String::new(),
            range_end: String::new(),
        }
    }
}

impl JsonResponse {
    /// The response to a query for `subnet`: the facts of the network it
    /// denotes, or the failure to read one, with nothing derived.
    pub open spec fn answers(self, subnet: Seq<char>) -> bool {
        match cidr_of(subnet) {
            Some(cidr) => {
                &&& self.success
                &&& self.error@.len() == 0
                &&& self.result.describes(subnet, cidr)
            },
            None => self.reports(SubnetError::InvalidFormat),
        }
    }

    /// The response that reports a failure: its message, and nothing derived.
    pub open spec fn reports(self, failure: SubnetError) -> bool {
        &&& !self.success
        &&& self.error@ == failure.text()
        &&& self.result.is_unset()
    }

    /// The response that carries the facts of a subnet.
    pub fn found(info: SubnetInfo) -> (response: JsonResponse)
        ensures
            response.success,
            response.error@.len() == 0,
            response.result == info,
    {
        JsonResponse { result: info, success: true, error: String::new() }
    }

    /// The response to an outcome: the facts where there are some, else the
    /// failure's message with nothing derived.
    pub fn of(outcome: Result<SubnetInfo, SubnetError>) -> (response: JsonResponse)
        ensures
            match outcome {
                Ok(info) => response.success && response.error@.len() == 0 && response.result
                    == info,
                Err(failure) => response.reports(failure),
            },
    {
        match outcome {
            Ok(info) => JsonResponse::found(info),
            Err(failure) => JsonResponse::failed(failure),
        }
    }

    /// The response that reports a failure.
    pub fn failed(failure: SubnetError) -> (response: JsonResponse)
        ensures
            response.reports(failure),
    {
        JsonResponse { result: SubnetInfo::default(), success: false, error: failure.message() }
    }
}

/// The facts of a network that was queried as `subnet`. The text is kept as
/// it was given, whatever host bits its address has.
pub fn describe(subnet: &str, cidr: &Cidr) -> (info: SubnetInfo)
    requires
        cidr.wf(),
    ensures
        info.describes(subnet@, *cidr),
        info.num_ips.is_some(),
{
    SubnetInfo {
        ip_version: cidr.version(),
        subnet: subnet.to_owned(),
        prefix_length: cidr.prefix(),
        num_ips: cidr.address_count(),
        range_start: cidr.network_text(),
        range_end: cidr.broadcast_text(),
    }
}

/// Derives the facts of the subnet that `input` denotes. Fails, with
/// [`SubnetError::InvalidFormat`] and for no other reason, exactly where
/// `input` is not a network in CIDR notation.
pub fn derive(input: &str) -> (r: Result<SubnetInfo, SubnetError>)
    ensures
        match cidr_of(input@) {
            Some(cidr) => r matches Ok(info) && info.describes(input@, cidr) && cidr.wf(),
            None => r matches Err(e) && e == SubnetError::InvalidFormat,
        },
{
    match parse_cidr(input) {
        Some(cidr) => Ok(describe(input, &cidr)),
        None => Err(SubnetError::InvalidFormat),
    }
}

/// The response to a query for `subnet`.
pub fn get_subnet(subnet: &str) -> (response: JsonResponse)
    ensures
        response.answers(subnet@),
        response.success <==> cidr_of(subnet@).is_some(),
{
    JsonResponse::of(derive(subnet))
}

/// What a run of the program reports and the status it ends with. `args`
/// is the whole argument list, the program's name first; only the argument
/// after the name is read. Without one the run fails with
/// [`SubnetError::NoSubnetSpecified`] and status 1. With one the status is
/// 0, also where the argument is no subnet: the response says so.
pub fn run(args: &Vec<String>) -> (out: (JsonResponse, i32))
    ensures
        args.len() < 2 ==> out.0.reports(SubnetError::NoSubnetSpecified) && out.1 == 1,
        args.len() >= 2 ==> out.0.answers(args[1]@) && out.1 == 0,
{
    if args.len() < 2 {
        return (JsonResponse::failed(SubnetError::NoSubnetSpecified), EXIT_NO_SUBNET);
    }
    (get_subnet(args[1].as_str()), EXIT_ANSWERED)
}

/// Of an IPv4 subnet with prefix length `prefix` the response reports
/// family 4 and `2^(32 - prefix)` addresses. The first address it reports
/// has all host bits cleared, the last has all host bits set, both have the
/// network bits of the queried address, and the count is the number of
/// addresses from the first to the last.
pub proof fn lemma_ipv4_answer(subnet: Seq<char>, addr: u32, prefix: u8, response: JsonResponse)
    requires
        cidr_of(subnet) == Some(Cidr::V4 { addr, prefix }),
        prefix <= 32,
        response.answers(subnet),
    ensures
        response.success,
        response.result.ip_version == 4,
        response.result.prefix_length == prefix,
        response.result.num_ips matches Some(n) && n == pow2((32 - prefix) as nat),
        response.result.range_start@ == ipv4_text(v4_network(addr, prefix)),
        response.result.range_end@ == ipv4_text(v4_broadcast(addr, prefix)),
        v4_network(addr, prefix) & v4_hostmask(prefix) == 0,
        v4_broadcast(addr, prefix) & v4_hostmask(prefix) == v4_hostmask(prefix),
        v4_network(addr, prefix) & !v4_hostmask(prefix) == addr & !v4_hostmask(prefix),
        v4_broadcast(addr, prefix) & !v4_hostmask(prefix) == addr & !v4_hostmask(prefix),
        response.result.num_ips == Some(
            (v4_broadcast(addr, prefix) - v4_network(addr, prefix) + 1) as u128,
        ),
{
    lemma_pow2_fits((32 - prefix) as nat);
    lemma_v4_range_bits(addr, prefix);
    lemma_v4_block_size(addr, prefix);
    let m = crate::range::v4_netmask(prefix);
    assert(!!m == m) by (bit_vector);
}

/// Of an IPv6 subnet with prefix length `prefix` the response reports
/// family 6 and, for a prefix of 1 or more, `2^(128 - prefix)` addresses,
/// the number of addresses from the first to the last. For prefix 0 it
/// reports the largest 128-bit value, which is one less than that number:
/// a count is always present and never zero. The first address it reports
/// has all host bits cleared, the last has all host bits set.
pub proof fn lemma_ipv6_answer(subnet: Seq<char>, addr: u128, prefix: u8, response: JsonResponse)
    requires
        cidr_of(subnet) == Some(Cidr::V6 { addr, prefix }),
        prefix <= 128,
        response.answers(subnet),
    ensures
        response.success,
        response.result.ip_version == 6,
        response.result.prefix_length == prefix,
        response.result.num_ips matches Some(n) && n > 0 && (prefix > 0 ==> n == pow2(
            (128 - prefix) as nat,
        )) && (prefix == 0 ==> n == u128::MAX && n + 1 == pow2(128)),
        prefix > 0 ==> response.result.num_ips == Some(
            (v6_broadcast(addr, prefix) - v6_network(addr, prefix) + 1) as u128,
        ),
        response.result.range_start@ == ipv6_text(v6_network(addr, prefix)),
        response.result.range_end@ == ipv6_text(v6_broadcast(addr, prefix)),
        v6_network(addr, prefix) & v6_hostmask(prefix) == 0,
        v6_broadcast(addr, prefix) & v6_hostmask(prefix) == v6_hostmask(prefix),
        v6_network(addr, prefix) & !v6_hostmask(prefix) == addr & !v6_hostmask(prefix),
        v6_broadcast(addr, prefix) & !v6_hostmask(prefix) == addr & !v6_hostmask(prefix),
{
    if prefix > 0 {
        lemma_pow2_fits((128 - prefix) as nat);
    }
    crate::count::lemma_pow2_top();
    lemma_v6_range_bits(addr, prefix);
    lemma_v6_block_size(addr, prefix);
    let m = crate::range::v6_netmask(prefix);
    assert(!!m == m) by (bit_vector);
}

/// A response that reports success echoes the queried text as it was given,
/// character for character, whatever host bits its address has.
pub proof fn lemma_success_echoes_the_query(subnet: Seq<char>, response: JsonResponse)
    requires
        response.answers(subnet),
        response.success,
    ensures
        response.result.subnet@ == subnet,
        cidr_of(subnet).is_some(),
{
}

/// A response carries a message exactly where it reports a failure.
pub proof fn lemma_message_iff_failure(subnet: Seq<char>, response: JsonResponse)
    requires
        response.answers(subnet),
    ensures
        response.success <==> response.error@.len() == 0,
{
    SubnetError::InvalidFormat.lemma_text_is_not_empty();
}

/// A text that denotes no network is answered with the one failure there
/// is for it, and nothing derived: no partial result.
pub proof fn lemma_invalid_is_reported(subnet: Seq<char>, response: JsonResponse)
    requires
        response.answers(subnet),
        cidr_of(subnet).is_none(),
    ensures
        !response.success,
        response.error@ == "Invalid subnet format"@,
        response.result.is_unset(),
{
}

/// A text without a `/` and decimal digits after it, such as a bare
/// address or the empty text, denotes no network, whatever else it holds.
pub proof fn lemma_no_prefix_is_invalid(subnet: Seq<char>, response: JsonResponse)
    requires
        response.answers(subnet),
        !has_prefix_part(subnet),
    ensures
        response.reports(SubnetError::InvalidFormat),
{
}

/// A text without any `/` has no prefix part; neither has the empty text.
pub proof fn lemma_no_slash_no_prefix(subnet: Seq<char>)
    requires
        forall|i: int| 0 <= i < subnet.len() ==> subnet[i] != '/',
    ensures
        !has_prefix_part(subnet),
        cidr_of(subnet).is_none(),
{
}

} // verus!

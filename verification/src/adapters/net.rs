//! Membership of addresses in networks, by way of the `ipnetwork` crate.

use vstd::prelude::*;
use crate::engine::score::two_pow;

verus! {

/// Whether two addresses of `bits` bits agree in their first `prefix` bits.
pub open spec fn same_prefix(bits: nat, prefix: u8, a: int, b: int) -> bool {
    a / (two_pow((bits - prefix) as nat) as int) == b / (two_pow((bits - prefix) as nat) as int)
}

/// What a text in the form `address/prefix` denotes: whether the address is
/// an IPv6 one, the address as a number, and the prefix length. A text
/// without a prefix denotes the address as a network of its own.
pub uninterp spec fn parsed_network(text: Seq<char>) -> Option<(bool, u128, u8)>;

/// Whether the IPv4 network `network/prefix` contains `ip`.
///
/// Wraps `ipnetwork::Ipv4Network::contains`, which compares the two
/// addresses under the network's mask.
#[verifier::external_body]
pub(crate) fn v4_contains(network: u32, prefix: u8, ip: u32) -> (inside: bool)
    requires
        prefix <= 32,
    ensures
        inside == same_prefix(32, prefix, network as int, ip as int),
{
    match ipnetwork::Ipv4Network::new(network.into(), prefix) {
        Ok(net) => net.contains(ip.into()),
        Err(_) => false,
    }
}

/// Whether the IPv6 network `network/prefix` contains `ip`.
///
/// Wraps `ipnetwork::Ipv6Network::contains`, which compares the two
/// addresses under the network's mask.
#[verifier::external_body]
pub(crate) fn v6_contains(network: u128, prefix: u8, ip: u128) -> (inside: bool)
    requires
        prefix <= 128,
    ensures
        inside == same_prefix(128, prefix, network as int, ip as int),
{
    match ipnetwork::Ipv6Network::new(network.into(), prefix) {
        Ok(net) => net.contains(ip.into()),
        Err(_) => false,
    }
}

/// Reads a network from text.
///
/// Wraps the `FromStr` impl of `ipnetwork::IpNetwork`, which never yields a
/// prefix longer than the address.
#[verifier::external_body]
pub(crate) fn parse_network(text: &str) -> (network: Option<(bool, u128, u8)>)
    ensures
        network == parsed_network(text@),
        network matches Some(n) ==> if n.0 {
            n.2 <= 128
        } else {
            n.2 <= 32 && n.1 <= u32::MAX
        },
{
    match text.parse::<ipnetwork::IpNetwork>() {
        Ok(ipnetwork::IpNetwork::V4(net)) => Some((false, u32::from(net.ip()) as u128, net.prefix())),
        Ok(ipnetwork::IpNetwork::V6(net)) => Some((true, u128::from(net.ip()), net.prefix())),
        Err(_) => None,
    }
}

} // verus!

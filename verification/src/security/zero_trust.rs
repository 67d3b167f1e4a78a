//! Admission by network address: only callers from allowed networks get in.

use vstd::prelude::*;
use crate::adapters::net::{parse_network, parsed_network, same_prefix, v4_contains, v6_contains};
use crate::engine::text::{code_points, string_of};

verus! {

/// An IP address as a number.
#[derive(Debug, Clone, Copy, PartialEq, Eq, Structural)]
pub enum IpAddress {
    V4(u32),
    V6(u128),
}

impl IpAddress {
    /// Whether the address points back at the host itself: `127.0.0.0/8` for
    /// IPv4, `::1` for IPv6.
    pub open spec fn loops_back(self) -> bool {
        match self {
            IpAddress::V4(a) => a / 0x100_0000 == 127,
            IpAddress::V6(a) => a == 1,
        }
    }

    /// Whether the address points back at the host itself.
    pub fn is_loopback(&self) -> (loopback: bool)
        ensures
            loopback == self.loops_back(),
    {
        match self {
            IpAddress::V4(a) => *a / 0x100_0000 == 127,
            IpAddress::V6(a) => *a == 1,
        }
    }
}

/// A network: an address and the number of leading bits that count, which
/// are never more than the address has.
#[derive(Debug, Clone, Copy)]
pub struct Network {
    v6: bool,
    address: u128,
    prefix: u8,
}

impl Network {
    #[verifier::type_invariant]
    spec fn well_formed(self) -> bool {
        if self.v6 {
            self.prefix <= 128
        } else {
            self.prefix <= 32 && self.address <= u32::MAX
        }
    }

    /// Whether the network is an IPv6 one.
    pub closed spec fn is_v6(self) -> bool {
        self.v6
    }

    /// The network's address as a number.
    pub closed spec fn address(self) -> u128 {
        self.address
    }

    /// The number of leading bits that count.
    pub closed spec fn prefix(self) -> u8 {
        self.prefix
    }

    /// Whether `ip` lies in the network: it is of the same family and agrees
    /// with the network's address in the leading bits that count.
    pub open spec fn holds(self, ip: IpAddress) -> bool {
        match ip {
            IpAddress::V4(a) => !self.is_v6() && same_prefix(
                32,
                self.prefix(),
                self.address() as int,
                a as int,
            ),
            IpAddress::V6(a) => self.is_v6() && same_prefix(
                128,
                self.prefix(),
                self.address() as int,
                a as int,
            ),
        }
    }

    /// The IPv4 network `address/prefix`, unless the prefix is longer than
    /// 32 bits.
    pub fn v4(address: u32, prefix: u8) -> (network: Option<Network>)
        ensures
            prefix <= 32 <==> network is Some,
            network matches Some(n) ==> !n.is_v6() && n.address() == address && n.prefix()
                == prefix,
    {
        if prefix <= 32 {
            Some(Network { v6: false, address: address as u128, prefix })
        } else {
            None
        }
    }

    /// The IPv6 network `address/prefix`, unless the prefix is longer than
    /// 128 bits.
    pub fn v6(address: u128, prefix: u8) -> (network: Option<Network>)
        ensures
            prefix <= 128 <==> network is Some,
            network matches Some(n) ==> n.is_v6() && n.address() == address && n.prefix()
                == prefix,
    {
        if prefix <= 128 {
            Some(Network { v6: true, address, prefix })
        } else {
            None
        }
    }

    /// Reads a network from a text such as `10.0.0.0/24`.
    pub fn parse(text: &str) -> (network: Option<Network>)
        ensures
            match parsed_network(text@) {
                Some(parts) => network matches Some(n) && n.is_v6() == parts.0 && n.address()
                    == parts.1 && n.prefix() == parts.2,
                None => network is None,
            },
    {
        match parse_network(text) {
            Some((v6, address, prefix)) => Some(Network { v6, address, prefix }),
            None => None,
        }
    }

    /// Whether `ip` lies in the network.
    pub fn contains(&self, ip: IpAddress) -> (inside: bool)
        ensures
            inside == self.holds(ip),
    {
        proof {
            use_type_invariant(self);
        }
        match ip {
            IpAddress::V4(a) => !self.v6 && v4_contains(self.address as u32, self.prefix, a),
            IpAddress::V6(a) => self.v6 && v6_contains(self.address, self.prefix, a),
        }
    }
}

/// Who is admitted.
#[derive(Debug, Clone)]
pub struct ZeroTrustConfig {
    /// The networks whose addresses are admitted.
    pub allowed_networks: Vec<Network>,
    /// Whether admission is enforced at all.
    pub enabled: bool,
    /// Whether the host itself is always admitted.
    pub allow_localhost: bool,
}

impl ZeroTrustConfig {
    /// Whether `ip` is admitted: always if admission is not enforced; if the
    /// host itself is admitted and `ip` points back at it; and if `ip` lies
    /// in one of the allowed networks.
    pub open spec fn admits(self, ip: IpAddress) -> bool {
        ||| !self.enabled
        ||| self.allow_localhost && ip.loops_back()
        ||| exists|i: int|
            0 <= i < self.allowed_networks@.len() && (#[trigger] self.allowed_networks@[i]).holds(
                ip,
            )
    }

    /// Whether `ip` is admitted.
    pub fn is_allowed(&self, ip: &IpAddress) -> (allowed: bool)
        ensures
            allowed == self.admits(*ip),
    {
        if !self.enabled {
            return true;
        }
        if self.allow_localhost && ip.is_loopback() {
            return true;
        }
        let mut i: usize = 0;
        while i < self.allowed_networks.len()
            invariant
                i <= self.allowed_networks.len(),
                forall|j: int| 0 <= j < i ==> !(#[trigger] self.allowed_networks@[j]).holds(*ip),
            decreases self.allowed_networks.len() - i,
        {
            if self.allowed_networks[i].contains(*ip) {
                return true;
            }
            i += 1;
        }
        false
    }
}

impl Default for ZeroTrustConfig {
    /// Admission is enforced; the host itself and `10.0.0.0/24` are admitted.
    fn default() -> (config: ZeroTrustConfig)
        ensures
            config.enabled,
            config.allow_localhost,
            config.allowed_networks@.len() == 1,
            !config.allowed_networks@[0].is_v6(),
            config.allowed_networks@[0].address() == 0x0a00_0000,
            config.allowed_networks@[0].prefix() == 24,
    {
        let mut allowed_networks: Vec<Network> = Vec::new();
        allowed_networks.push(Network { v6: false, address: 0x0a00_0000, prefix: 24 });
        ZeroTrustConfig { allowed_networks, enabled: true, allow_localhost: true }
    }
}

/// What becomes of a request.
#[derive(Debug, Clone, Copy, PartialEq, Eq, Structural)]
pub enum Admission {
    /// The request goes on to the service.
    Forward,
    /// The request is refused because its address is not an allowed one.
    NotAllowed,
    /// The request is refused because its address could not be determined.
    Unverified,
}

impl Admission {
    /// What a refused caller is told.
    pub fn message(&self) -> (text: &'static str)
        ensures
            text@ == match *self {
                Admission::Forward => ""@,
                Admission::NotAllowed => "Access denied: IP not in allowed range"@,
                Admission::Unverified => "Access denied: Unable to verify client"@,
            },
    {
        match self {
            Admission::Forward => "",
            Admission::NotAllowed => "Access denied: IP not in allowed range",
            Admission::Unverified => "Access denied: Unable to verify client",
        }
    }
}

/// The index of the first colon in `text`, or the length of `text` if it
/// holds none.
pub open spec fn host_end(text: Seq<char>) -> int
    decreases text.len(),
{
    if text.len() == 0 || text[0] == ':' {
        0
    } else {
        1 + host_end(text.drop_first())
    }
}

/// The part of a remote address that names the host: what stands before the
/// first colon.
pub fn host_part(remote: &str) -> (host: String)
    ensures
        host@ == remote@.take(host_end(remote@)),
        0 <= host_end(remote@) <= remote@.len(),
{
    let chars = code_points(remote);
    let mut i: usize = 0;
    assert(chars@.skip(0) =~= chars@);
    while i < chars.len() && chars[i] != ':'
        invariant
            i <= chars.len(),
            host_end(chars@) == i + host_end(chars@.skip(i as int)),
        decreases chars.len() - i,
    {
        assert(chars@.skip(i as int).drop_first() =~= chars@.skip(i + 1));
        i += 1;
    }
    assert(host_end(chars@.skip(i as int)) == 0);
    let host = string_of(&chars, 0, i);
    host
}

/// Admission in front of a service.
pub struct ZeroTrustMiddleware {
    config: ZeroTrustConfig,
}

impl ZeroTrustMiddleware {
    /// The rules of admission.
    pub closed spec fn rules(self) -> ZeroTrustConfig {
        self.config
    }

    /// Admission by the rules of `config`.
    pub fn new(config: ZeroTrustConfig) -> (middleware: ZeroTrustMiddleware)
        ensures
            middleware.rules() == config,
    {
        ZeroTrustMiddleware { config }
    }

    /// What becomes of a request from `client`, the address it came from if
    /// that could be determined.
    pub fn call(&self, client: Option<IpAddress>) -> (admission: Admission)
        ensures
            admission == match client {
                Some(ip) => if self.rules().admits(ip) {
                    Admission::Forward
                } else {
                    Admission::NotAllowed
                },
                None => Admission::Unverified,
            },
    {
        match client {
            Some(ip) => {
                if self.config.is_allowed(&ip) {
                    Admission::Forward
                } else {
                    Admission::NotAllowed
                }
            },
            None => Admission::Unverified,
        }
    }
}

} // verus!

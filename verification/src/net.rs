//! Addresses and transports as plain values.

use vstd::prelude::*;
use crate::ipv4::format_ipv4;
use crate::ipv4::ipv4_text;
use crate::ipv6::format_ipv6;
use crate::ipv6::ipv6_text;

verus! {

/// The five transports a name server can listen on, in registration order.
#[derive(Clone, Copy, Debug, PartialEq, Eq, Structural)]
pub enum Transport {
    Udp,
    Tcp,
    Tls,
    Https,
    Quic,
}

/// Whether a socket carries a byte stream or datagrams.
#[derive(Clone, Copy, Debug, PartialEq, Eq, Structural)]
pub enum SocketKind {
    Stream,
    Datagram,
}

/// The address family of a socket.
#[derive(Clone, Copy, Debug, PartialEq, Eq, Structural)]
pub enum Family {
    V4,
    V6,
}

/// An IP address, held as the integer whose big-endian bytes are the address.
#[derive(Clone, Copy, Debug, PartialEq, Eq, Structural)]
pub enum IpAddress {
    V4(u32),
    V6(u128),
}

/// An address and a port.
#[derive(Clone, Copy, Debug, PartialEq, Eq, Structural)]
pub struct SocketAddress {
    pub address: IpAddress,
    pub port: u16,
}

impl Transport {
    /// The port a transport listens on when neither the command line nor the
    /// configuration names one.
    pub open spec fn spec_default_port(self) -> u16 {
        match self {
            Transport::Udp => 53,
            Transport::Tcp => 53,
            Transport::Tls => 853,
            Transport::Https => 443,
            Transport::Quic => 853,
        }
    }

    /// The port a transport listens on when neither the command line nor the
    /// configuration names one.
    pub fn default_port(self) -> (port: u16)
        ensures
            port == self.spec_default_port(),
    {
        match self {
            Transport::Udp => 53,
            Transport::Tcp => 53,
            Transport::Tls => 853,
            Transport::Https => 443,
            Transport::Quic => 853,
        }
    }

    /// TLS and HTTPS run over a listening stream socket, as TCP does; UDP and
    /// QUIC run over a datagram socket.
    pub open spec fn spec_socket_kind(self) -> SocketKind {
        match self {
            Transport::Udp => SocketKind::Datagram,
            Transport::Tcp => SocketKind::Stream,
            Transport::Tls => SocketKind::Stream,
            Transport::Https => SocketKind::Stream,
            Transport::Quic => SocketKind::Datagram,
        }
    }

    /// TLS and HTTPS run over a listening stream socket, as TCP does; UDP and
    /// QUIC run over a datagram socket.
    pub fn socket_kind(self) -> (kind: SocketKind)
        ensures
            kind == self.spec_socket_kind(),
    {
        match self {
            Transport::Udp => SocketKind::Datagram,
            Transport::Tcp => SocketKind::Stream,
            Transport::Tls => SocketKind::Stream,
            Transport::Https => SocketKind::Stream,
            Transport::Quic => SocketKind::Datagram,
        }
    }

    /// The transport's name in messages.
    pub open spec fn spec_name(self) -> Seq<char> {
        match self {
            Transport::Udp => "UDP"@,
            Transport::Tcp => "TCP"@,
            Transport::Tls => "TLS"@,
            Transport::Https => "HTTPS"@,
            Transport::Quic => "QUIC"@,
        }
    }

    /// The transport's name in messages.
    pub fn name(self) -> (name: &'static str)
        ensures
            name@ == self.spec_name(),
    {
        match self {
            Transport::Udp => "UDP",
            Transport::Tcp => "TCP",
            Transport::Tls => "TLS",
            Transport::Https => "HTTPS",
            Transport::Quic => "QUIC",
        }
    }

    /// TLS, HTTPS and QUIC present a certificate; UDP and TCP do not.
    pub open spec fn spec_needs_credential(self) -> bool {
        self == Transport::Tls || self == Transport::Https || self == Transport::Quic
    }

    /// TLS, HTTPS and QUIC present a certificate; UDP and TCP do not.
    pub fn needs_credential(self) -> (needed: bool)
        ensures
            needed == self.spec_needs_credential(),
    {
        match self {
            Transport::Udp => false,
            Transport::Tcp => false,
            Transport::Tls => true,
            Transport::Https => true,
            Transport::Quic => true,
        }
    }
}

impl IpAddress {
    /// The IPv4 address that stands for every local interface, `0.0.0.0`.
    pub open spec fn spec_wildcard_v4() -> IpAddress {
        IpAddress::V4(0)
    }

    /// The IPv6 address that stands for every local interface, `::`.
    pub open spec fn spec_wildcard_v6() -> IpAddress {
        IpAddress::V6(0)
    }

    /// The IPv4 address that stands for every local interface, `0.0.0.0`.
    pub fn wildcard_v4() -> (addr: IpAddress)
        ensures
            addr == Self::spec_wildcard_v4(),
    {
        IpAddress::V4(0)
    }

    /// The IPv6 address that stands for every local interface, `::`.
    pub fn wildcard_v6() -> (addr: IpAddress)
        ensures
            addr == Self::spec_wildcard_v6(),
    {
        IpAddress::V6(0)
    }

    /// The family of the address.
    pub open spec fn spec_family(self) -> Family {
        match self {
            IpAddress::V4(_) => Family::V4,
            IpAddress::V6(_) => Family::V6,
        }
    }

    /// The family of the address.
    pub fn family(self) -> (family: Family)
        ensures
            family == self.spec_family(),
    {
        match self {
            IpAddress::V4(_) => Family::V4,
            IpAddress::V6(_) => Family::V6,
        }
    }

    /// Whether this is an IPv4 address.
    pub fn is_ipv4(self) -> (yes: bool)
        ensures
            yes == (self.spec_family() == Family::V4),
    {
        match self {
            IpAddress::V4(_) => true,
            IpAddress::V6(_) => false,
        }
    }

    /// Whether this is an IPv6 address.
    pub fn is_ipv6(self) -> (yes: bool)
        ensures
            yes == (self.spec_family() == Family::V6),
    {
        match self {
            IpAddress::V4(_) => false,
            IpAddress::V6(_) => true,
        }
    }

    /// The address as text: dotted decimal for IPv4, groups of hexadecimal
    /// digits for IPv6.
    pub open spec fn spec_to_text(self) -> Seq<char> {
        match self {
            IpAddress::V4(bits) => ipv4_text(bits),
            IpAddress::V6(bits) => ipv6_text(bits),
        }
    }

    /// The address as text: dotted decimal for IPv4, groups of hexadecimal
    /// digits for IPv6.
    pub fn to_text(self) -> (text: String)
        ensures
            text@ == self.spec_to_text(),
    {
        match self {
            IpAddress::V4(bits) => format_ipv4(bits),
            IpAddress::V6(bits) => format_ipv6(bits),
        }
    }

    /// Whether this is one of the two wildcard addresses.
    pub fn is_wildcard(self) -> (yes: bool)
        ensures
            yes == (self == Self::spec_wildcard_v4() || self == Self::spec_wildcard_v6()),
    {
        match self {
            IpAddress::V4(bits) => bits == 0,
            IpAddress::V6(bits) => bits == 0,
        }
    }
}

} // verus!

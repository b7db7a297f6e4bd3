use dns_bootstrap::net::Family;
use dns_bootstrap::net::IpAddress;
use dns_bootstrap::net::SocketKind;
use dns_bootstrap::net::Transport;
use dns_bootstrap::plan::effective_port;
use dns_bootstrap::plan::listen_addresses;
use dns_bootstrap::plan::plan;

#[test]
fn no_address_gives_both_wildcards() {
    let addresses = listen_addresses(&vec![], &vec![]);
    assert_eq!(addresses, vec![IpAddress::V4(0), IpAddress::V6(0)]);
    assert_eq!(addresses[0], IpAddress::wildcard_v4());
    assert_eq!(addresses[1], IpAddress::wildcard_v6());
}

#[test]
fn configured_addresses_come_ipv4_first() {
    let v4 = vec![0x7f00_0001, 0x0a00_0001];
    let v6 = vec![1u128];
    assert_eq!(
        listen_addresses(&v4, &v6),
        vec![
            IpAddress::V4(0x7f00_0001),
            IpAddress::V4(0x0a00_0001),
            IpAddress::V6(1),
        ]
    );
}

#[test]
fn one_family_alone_gets_no_wildcard() {
    assert_eq!(listen_addresses(&vec![], &vec![1u128]), vec![IpAddress::V6(1)]);
    assert_eq!(listen_addresses(&vec![5u32], &vec![]), vec![IpAddress::V4(5)]);
}

#[test]
fn duplicates_are_kept() {
    assert_eq!(
        listen_addresses(&vec![7, 7], &vec![]),
        vec![IpAddress::V4(7), IpAddress::V4(7)]
    );
}

#[test]
fn command_line_port_wins() {
    assert_eq!(effective_port(Transport::Udp, Some(5353), Some(1053)), 5353);
    assert_eq!(effective_port(Transport::Udp, None, Some(1053)), 1053);
    assert_eq!(effective_port(Transport::Udp, None, None), 53);
}

#[test]
fn default_ports() {
    assert_eq!(Transport::Udp.default_port(), 53);
    assert_eq!(Transport::Tcp.default_port(), 53);
    assert_eq!(Transport::Tls.default_port(), 853);
    assert_eq!(Transport::Https.default_port(), 443);
    assert_eq!(Transport::Quic.default_port(), 853);
}

#[test]
fn plan_holds_transport_port_and_addresses() {
    let planned = plan(Transport::Tls, &vec![], &vec![], None, Some(8853));
    assert_eq!(planned.transport, Transport::Tls);
    assert_eq!(planned.port, 8853);
    assert_eq!(planned.addresses, vec![IpAddress::V4(0), IpAddress::V6(0)]);
}

#[test]
fn plan_is_deterministic() {
    let a = plan(Transport::Quic, &vec![1, 2], &vec![3], Some(1), None);
    let b = plan(Transport::Quic, &vec![1, 2], &vec![3], Some(1), None);
    assert_eq!(a, b);
}

#[test]
fn address_families() {
    assert_eq!(IpAddress::V4(1).family(), Family::V4);
    assert_eq!(IpAddress::V6(1).family(), Family::V6);
    assert!(IpAddress::V4(1).is_ipv4());
    assert!(!IpAddress::V4(1).is_ipv6());
    assert!(IpAddress::V6(1).is_ipv6());
    assert!(IpAddress::V4(0).is_wildcard());
    assert!(IpAddress::V6(0).is_wildcard());
    assert!(!IpAddress::V6(1).is_wildcard());
}

#[test]
fn transport_sockets_and_credentials() {
    assert_eq!(Transport::Udp.socket_kind(), SocketKind::Datagram);
    assert_eq!(Transport::Tcp.socket_kind(), SocketKind::Stream);
    assert_eq!(Transport::Tls.socket_kind(), SocketKind::Stream);
    assert_eq!(Transport::Https.socket_kind(), SocketKind::Stream);
    assert_eq!(Transport::Quic.socket_kind(), SocketKind::Datagram);
    assert!(!Transport::Udp.needs_credential());
    assert!(!Transport::Tcp.needs_credential());
    assert!(Transport::Tls.needs_credential());
    assert!(Transport::Https.needs_credential());
    assert!(Transport::Quic.needs_credential());
}

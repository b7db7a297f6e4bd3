//! The address planner: from the configured addresses and ports to the
//! addresses and port that one transport listens on.

use vstd::prelude::*;
use crate::net::IpAddress;
use crate::net::Transport;

verus! {

/// What one transport listens on: a port and the addresses to bind, in order.
#[derive(Clone, Debug, PartialEq, Eq)]
pub struct ListenPlan {
    pub transport: Transport,
    pub port: u16,
    pub addresses: Vec<IpAddress>,
}

/// The configured addresses in bind order: every IPv4 address, then every
/// IPv6 address, duplicates kept.
pub open spec fn merged_addresses(v4: Seq<u32>, v6: Seq<u128>) -> Seq<IpAddress> {
    v4.map_values(|bits: u32| IpAddress::V4(bits)) + v6.map_values(
        |bits: u128| IpAddress::V6(bits),
    )
}

/// The two wildcard addresses, IPv4 first.
pub open spec fn wildcard_addresses() -> Seq<IpAddress> {
    seq![IpAddress::spec_wildcard_v4(), IpAddress::spec_wildcard_v6()]
}

/// The addresses to bind: the configured ones, or both wildcards where none
/// is configured.
pub open spec fn planned_addresses(v4: Seq<u32>, v6: Seq<u128>) -> Seq<IpAddress> {
    if v4.len() == 0 && v6.len() == 0 {
        wildcard_addresses()
    } else {
        merged_addresses(v4, v6)
    }
}

/// The port to bind: the command line's, else the configuration's, else the
/// transport's default.
pub open spec fn planned_port(
    transport: Transport,
    cli_port: Option<u16>,
    config_port: Option<u16>,
) -> u16 {
    match cli_port {
        Some(port) => port,
        None => match config_port {
            Some(port) => port,
            None => transport.spec_default_port(),
        },
    }
}

impl ListenPlan {
    /// A plan always names at least one address.
    pub open spec fn wf(&self) -> bool {
        self.addresses@.len() > 0
    }
}

/// The port that `transport` binds.
pub fn effective_port(transport: Transport, cli_port: Option<u16>, config_port: Option<u16>) -> (port:
    u16)
    ensures
        port == planned_port(transport, cli_port, config_port),
{
    match cli_port {
        Some(port) => port,
        None => match config_port {
            Some(port) => port,
            None => transport.default_port(),
        },
    }
}

/// The addresses that every transport binds; never none.
pub fn listen_addresses(configured_v4: &Vec<u32>, configured_v6: &Vec<u128>) -> (addresses: Vec<
    IpAddress,
>)
    ensures
        addresses@ == planned_addresses(configured_v4@, configured_v6@),
        addresses@.len() > 0,
{
    let mut addresses: Vec<IpAddress> = Vec::new();
    let mut i: usize = 0;
    while i < configured_v4.len()
        invariant
            i <= configured_v4@.len(),
            addresses@ == configured_v4@.take(i as int).map_values(
                |bits: u32| IpAddress::V4(bits),
            ),
        decreases configured_v4@.len() - i,
    {
        addresses.push(IpAddress::V4(configured_v4[i]));
        i += 1;
        assert(addresses@ =~= configured_v4@.take(i as int).map_values(
            |bits: u32| IpAddress::V4(bits),
        ));
    }
    assert(configured_v4@.take(i as int) =~= configured_v4@);
    let ghost head = addresses@;
    let mut j: usize = 0;
    while j < configured_v6.len()
        invariant
            j <= configured_v6@.len(),
            addresses@ == head + configured_v6@.take(j as int).map_values(
                |bits: u128| IpAddress::V6(bits),
            ),
        decreases configured_v6@.len() - j,
    {
        addresses.push(IpAddress::V6(configured_v6[j]));
        j += 1;
        assert(addresses@ =~= head + configured_v6@.take(j as int).map_values(
            |bits: u128| IpAddress::V6(bits),
        ));
    }
    assert(configured_v6@.take(j as int) =~= configured_v6@);
    if addresses.len() == 0 {
        addresses.push(IpAddress::wildcard_v4());
        addresses.push(IpAddress::wildcard_v6());
        assert(addresses@ =~= wildcard_addresses());
    }
    addresses
}

/// Plans what `transport` listens on. With no address configured the plan is
/// exactly the IPv4 and the IPv6 wildcard, so it is never empty.
pub fn plan(
    transport: Transport,
    configured_v4: &Vec<u32>,
    configured_v6: &Vec<u128>,
    cli_port: Option<u16>,
    config_port: Option<u16>,
) -> (planned: ListenPlan)
    ensures
        planned.wf(),
        planned.transport == transport,
        planned.port == planned_port(transport, cli_port, config_port),
        planned.addresses@ == planned_addresses(configured_v4@, configured_v6@),
        configured_v4@.len() == 0 && configured_v6@.len() == 0 ==> planned.addresses@
            == wildcard_addresses(),
{
    ListenPlan {
        transport,
        port: effective_port(transport, cli_port, config_port),
        addresses: listen_addresses(configured_v4, configured_v6),
    }
}

/// A plan holds every configured address, IPv4 before IPv6 and each group in
/// its configured order; it is the two wildcards exactly when nothing is
/// configured.
pub proof fn planned_addresses_cover(v4: Seq<u32>, v6: Seq<u128>)
    ensures
        planned_addresses(v4, v6).len() > 0,
        v4.len() + v6.len() > 0 ==> planned_addresses(v4, v6).len() == v4.len() + v6.len(),
        forall|i: int|
            0 <= i < v4.len() ==> #[trigger] planned_addresses(v4, v6)[i] == IpAddress::V4(v4[i]),
        forall|j: int|
            v4.len() + v6.len() > 0 && 0 <= j < v6.len() ==> #[trigger] planned_addresses(
                v4,
                v6,
            )[v4.len() + j] == IpAddress::V6(v6[j]),
        v4.len() + v6.len() == 0 ==> planned_addresses(v4, v6) == seq![
            IpAddress::V4(0),
            IpAddress::V6(0),
        ],
{
}

} // verus!

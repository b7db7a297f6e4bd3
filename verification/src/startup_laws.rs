//! What holds of every start-up sequence, whatever the settings.

use vstd::prelude::*;
use crate::config::Capabilities;
use crate::config::CliOptions;
use crate::config::ServerConfig;
use crate::net::Transport;
use crate::startup::closing_steps;
use crate::startup::has_listen;
use crate::startup::opening_steps;
use crate::startup::planned_binds;
use crate::startup::preparing_steps;
use crate::startup::registration_steps;
use crate::startup::secure_steps;
use crate::startup::secure_transport_steps;
use crate::startup::spec_listen_addresses;
use crate::startup::spec_transport_enabled;
use crate::startup::spec_transport_port;
use crate::startup::startup_plan;
use crate::startup::transport_steps;
use crate::startup::Notice;
use crate::startup::Startup;
use crate::startup::StartupStep;

verus! {

/// The place of a transport in the registration order.
pub open spec fn transport_rank(transport: Transport) -> int {
    match transport {
        Transport::Udp => 0,
        Transport::Tcp => 1,
        Transport::Tls => 2,
        Transport::Https => 3,
        Transport::Quic => 4,
    }
}

/// The stage of the start-up that a step belongs to. Stages never go back.
pub open spec fn stage(step: StartupStep) -> int {
    match step {
        StartupStep::StartMetrics { .. } => -1,
        StartupStep::Note(Notice::MetricsDisabled) => -1,
        StartupStep::RegisterSignal => 0,
        StartupStep::BuildCatalog => 1,
        StartupStep::Note(Notice::Validated) => 2,
        StartupStep::Note(Notice::CredentialMissing) => 25,
        StartupStep::LoadCredential => 25,
        StartupStep::Note(Notice::TransportDisabled(t)) => 10 * (transport_rank(t) + 1),
        StartupStep::Note(Notice::TransportUnavailable(t)) => 10 * (transport_rank(t) + 1),
        StartupStep::Note(Notice::NoAddresses(t)) => 10 * (transport_rank(t) + 1),
        StartupStep::Listen { transport, .. } => 10 * (transport_rank(transport) + 1),
        StartupStep::DropPrivileges => 60,
        StartupStep::SpawnShutdownTask => 70,
        StartupStep::Serve => 80,
    }
}

/// Whether every step belongs to a stage from `low` to `high`.
pub open spec fn within(steps: Seq<StartupStep>, low: int, high: int) -> bool {
    forall|i: int| 0 <= i < steps.len() ==> low <= stage(#[trigger] steps[i]) <= high
}

/// Whether no step belongs to an earlier stage than a step before it.
pub open spec fn in_order(steps: Seq<StartupStep>) -> bool {
    forall|i: int, j: int|
        0 <= i <= j < steps.len() ==> stage(#[trigger] steps[i]) <= stage(#[trigger] steps[j])
}

proof fn joined_in_order(a: Seq<StartupStep>, b: Seq<StartupStep>, low: int, mid: int, high: int)
    requires
        low <= mid <= high,
        in_order(a),
        in_order(b),
        within(a, low, mid),
        within(b, mid, high),
    ensures
        in_order(a + b),
        within(a + b, low, high),
{
    assert forall|i: int| 0 <= i < (a + b).len() implies low <= stage(#[trigger] (a + b)[i])
        <= high by {
        if i < a.len() {
            assert((a + b)[i] == a[i]);
        } else {
            assert((a + b)[i] == b[i - a.len()]);
        }
    }
    assert forall|i: int, j: int| 0 <= i <= j < (a + b).len() implies stage(
        #[trigger] (a + b)[i],
    ) <= stage(#[trigger] (a + b)[j]) by {
        if j < a.len() {
            assert((a + b)[i] == a[i] && (a + b)[j] == a[j]);
        } else if i < a.len() {
            assert((a + b)[i] == a[i] && (a + b)[j] == b[j - a.len()]);
        } else {
            assert((a + b)[i] == b[i - a.len()] && (a + b)[j] == b[j - a.len()]);
        }
    }
}

proof fn transport_steps_in_order(
    cli: &CliOptions,
    config: &ServerConfig,
    caps: Capabilities,
    transport: Transport,
)
    ensures
        in_order(transport_steps(cli, config, caps, transport)),
        within(
            transport_steps(cli, config, caps, transport),
            10 * (transport_rank(transport) + 1),
            10 * (transport_rank(transport) + 1),
        ),
{
    reveal(transport_steps);
}

proof fn secure_steps_in_order(cli: &CliOptions, config: &ServerConfig, caps: Capabilities)
    ensures
        in_order(secure_steps(cli, config, caps)),
        within(secure_steps(cli, config, caps), 25, 50),
{
    let tls = transport_steps(cli, config, caps, Transport::Tls);
    let https = transport_steps(cli, config, caps, Transport::Https);
    let quic = transport_steps(cli, config, caps, Transport::Quic);
    transport_steps_in_order(cli, config, caps, Transport::Tls);
    transport_steps_in_order(cli, config, caps, Transport::Https);
    transport_steps_in_order(cli, config, caps, Transport::Quic);
    assert(within(tls, 30, 40));
    assert(within(https, 40, 40));
    joined_in_order(tls, https, 30, 40, 40);
    assert(within(tls + https, 30, 50));
    assert(within(quic, 50, 50));
    joined_in_order(tls + https, quic, 30, 50, 50);
    let all = secure_transport_steps(cli, config, caps);
    assert(within(all, 25, 50));
    let load = seq![StartupStep::LoadCredential];
    assert(within(load, 25, 25));
    assert(within(all, 25, 50));
    joined_in_order(load, all, 25, 25, 50);
}

proof fn registration_steps_in_order(cli: &CliOptions, config: &ServerConfig, caps: Capabilities)
    ensures
        in_order(registration_steps(cli, config, caps)),
        within(registration_steps(cli, config, caps), 10, 50),
{
    let udp = transport_steps(cli, config, caps, Transport::Udp);
    let tcp = transport_steps(cli, config, caps, Transport::Tcp);
    transport_steps_in_order(cli, config, caps, Transport::Udp);
    transport_steps_in_order(cli, config, caps, Transport::Tcp);
    secure_steps_in_order(cli, config, caps);
    assert(within(udp, 10, 20));
    assert(within(tcp, 20, 20));
    joined_in_order(udp, tcp, 10, 20, 20);
    assert(within(udp + tcp, 10, 25));
    joined_in_order(udp + tcp, secure_steps(cli, config, caps), 10, 25, 50);
}

/// Whether a step opens a socket: a bind for a transport, or the start of
/// the metrics listener.
pub open spec fn opens_socket(step: StartupStep) -> bool {
    step is Listen || step is StartMetrics
}

/// A validating run opens no socket, whatever the settings and whether or not
/// its zones load: its steps are the signal registration, where the platform
/// has signals, the catalog and the notice that validation passed. It loads
/// no certificate, drops no privileges and never serves.
pub proof fn validating_run_opens_no_socket(
    cli: &CliOptions,
    config: &ServerConfig,
    caps: Capabilities,
)
    requires
        cli.validate,
    ensures
        startup_plan(cli, config, caps) == if caps.posix {
            seq![
                StartupStep::RegisterSignal,
                StartupStep::BuildCatalog,
                StartupStep::Note(Notice::Validated),
            ]
        } else {
            seq![StartupStep::BuildCatalog, StartupStep::Note(Notice::Validated)]
        },
        forall|i: int|
            0 <= i < startup_plan(cli, config, caps).len() ==> !opens_socket(
                #[trigger] startup_plan(cli, config, caps)[i],
            ),
        forall|i: int|
            0 <= i < startup_plan(cli, config, caps).len() ==> {
                let step = #[trigger] startup_plan(cli, config, caps)[i];
                step != StartupStep::LoadCredential && step != StartupStep::DropPrivileges && step
                    != StartupStep::SpawnShutdownTask && step != StartupStep::Serve
            },
{
    let plan = startup_plan(cli, config, caps);
    let short = if caps.posix {
        seq![
            StartupStep::RegisterSignal,
            StartupStep::BuildCatalog,
            StartupStep::Note(Notice::Validated),
        ]
    } else {
        seq![StartupStep::BuildCatalog, StartupStep::Note(Notice::Validated)]
    };
    assert(plan =~= short);
}

proof fn surroundings_in_order(cli: &CliOptions, config: &ServerConfig, caps: Capabilities)
    ensures
        in_order(opening_steps(cli, config, caps)),
        within(opening_steps(cli, config, caps), -1, 2),
        in_order(closing_steps(caps)),
        within(closing_steps(caps), 60, 80),
{
    reveal(opening_steps);
    reveal(closing_steps);
}

/// The steps of a start-up come stage by stage: the metrics, the signal
/// registration and the catalog, then UDP, TCP, the credential, TLS, HTTPS and QUIC, then the
/// privilege drop, the shutdown task and serving.
pub proof fn startup_in_order(cli: &CliOptions, config: &ServerConfig, caps: Capabilities)
    ensures
        in_order(startup_plan(cli, config, caps)),
{
    let opening = opening_steps(cli, config, caps);
    surroundings_in_order(cli, config, caps);
    if cli.validate {
        validating_run_opens_no_socket(cli, config, caps);
    } else {
        let closing = closing_steps(caps);
        registration_steps_in_order(cli, config, caps);
        assert(within(opening, -1, 10));
        joined_in_order(opening, registration_steps(cli, config, caps), -1, 10, 50);
        assert(within(opening + registration_steps(cli, config, caps), -1, 60));
        joined_in_order(opening + registration_steps(cli, config, caps), closing, -1, 60, 80);
    }
}

/// Transports register in the order UDP, TCP, TLS, HTTPS, QUIC: no bind of a
/// transport comes after a bind of a later one.
pub proof fn binds_follow_transport_order(
    cli: &CliOptions,
    config: &ServerConfig,
    caps: Capabilities,
    i: int,
    j: int,
)
    requires
        0 <= i <= j < startup_plan(cli, config, caps).len(),
        startup_plan(cli, config, caps)[i] is Listen,
        startup_plan(cli, config, caps)[j] is Listen,
    ensures
        transport_rank(startup_plan(cli, config, caps)[i]->Listen_transport) <= transport_rank(
            startup_plan(cli, config, caps)[j]->Listen_transport,
        ),
{
    startup_in_order(cli, config, caps);
    let plan = startup_plan(cli, config, caps);
    assert(stage(plan[i]) <= stage(plan[j]));
}

/// Privileges are dropped only after every bind, and before the shutdown task
/// is started and before the server serves.
pub proof fn privileges_drop_between_binds_and_serving(
    cli: &CliOptions,
    config: &ServerConfig,
    caps: Capabilities,
    d: int,
    k: int,
)
    requires
        0 <= d < startup_plan(cli, config, caps).len(),
        0 <= k < startup_plan(cli, config, caps).len(),
        startup_plan(cli, config, caps)[d] == StartupStep::DropPrivileges,
    ensures
        startup_plan(cli, config, caps)[k] is Listen ==> k < d,
        startup_plan(cli, config, caps)[k] == StartupStep::LoadCredential ==> k < d,
        startup_plan(cli, config, caps)[k] == StartupStep::BuildCatalog ==> k < d,
        startup_plan(cli, config, caps)[k] == StartupStep::SpawnShutdownTask ==> d < k,
        startup_plan(cli, config, caps)[k] == StartupStep::Serve ==> d < k,
{
    startup_in_order(cli, config, caps);
    let plan = startup_plan(cli, config, caps);
    if k <= d {
        assert(stage(plan[k]) <= stage(plan[d]));
    } else {
        assert(stage(plan[d]) <= stage(plan[k]));
    }
}

/// Whether a step binds a socket for `transport`.
pub open spec fn binds_for(transport: Transport) -> spec_fn(StartupStep) -> bool {
    |step: StartupStep| step is Listen && step->Listen_transport == transport
}

/// The binds of `transport` among `steps`, in their order.
pub open spec fn binds_of(steps: Seq<StartupStep>, transport: Transport) -> Seq<StartupStep> {
    steps.filter(binds_for(transport))
}

/// Whether the server listens on `transport` under these settings: the run
/// is no validation, neither side disables the transport, the build has it,
/// and a certificate is configured where the transport needs one.
pub open spec fn serves(
    cli: &CliOptions,
    config: &ServerConfig,
    caps: Capabilities,
    transport: Transport,
) -> bool {
    &&& !cli.validate
    &&& spec_transport_enabled(cli, config, transport)
    &&& caps.spec_supports(transport)
    &&& transport.spec_needs_credential() ==> config.tls_cert is Some
}

proof fn filter_keeps_all(steps: Seq<StartupStep>, pred: spec_fn(StartupStep) -> bool)
    requires
        forall|i: int| 0 <= i < steps.len() ==> pred(#[trigger] steps[i]),
    ensures
        steps.filter(pred) == steps,
    decreases steps.len(),
{
    reveal(Seq::filter);
    if steps.len() != 0 {
        let rest = steps.drop_last();
        assert forall|i: int| 0 <= i < rest.len() implies pred(#[trigger] rest[i]) by {
            assert(rest[i] == steps[i]);
        }
        filter_keeps_all(rest, pred);
        assert(rest.push(steps.last()) =~= steps);
    }
}

proof fn filter_keeps_none(steps: Seq<StartupStep>, pred: spec_fn(StartupStep) -> bool)
    requires
        forall|i: int| 0 <= i < steps.len() ==> !pred(#[trigger] steps[i]),
    ensures
        steps.filter(pred) == Seq::<StartupStep>::empty(),
    decreases steps.len(),
{
    reveal(Seq::filter);
    if steps.len() != 0 {
        let rest = steps.drop_last();
        assert forall|i: int| 0 <= i < rest.len() implies !pred(#[trigger] rest[i]) by {
            assert(rest[i] == steps[i]);
        }
        filter_keeps_none(rest, pred);
    } else {
        assert(steps =~= Seq::<StartupStep>::empty());
    }
}

proof fn binds_of_transport_steps(
    cli: &CliOptions,
    config: &ServerConfig,
    caps: Capabilities,
    of: Transport,
    transport: Transport,
)
    ensures
        binds_of(transport_steps(cli, config, caps, of), transport) == if of == transport {
            binds_where_enabled(cli, config, caps, transport)
        } else {
            Seq::<StartupStep>::empty()
        },
{
    reveal(transport_steps);
    reveal(planned_binds);
    let steps = transport_steps(cli, config, caps, of);
    if of == transport && spec_transport_enabled(cli, config, transport) && caps.spec_supports(
        transport,
    ) {
        assert(spec_listen_addresses(config).len() > 0);
        assert(steps =~= planned_binds(cli, config, transport));
        filter_keeps_all(steps, binds_for(transport));
    } else {
        filter_keeps_none(steps, binds_for(transport));
    }
}

/// The binds of `transport` where its steps are in the start-up at all.
pub open spec fn binds_where_enabled(
    cli: &CliOptions,
    config: &ServerConfig,
    caps: Capabilities,
    transport: Transport,
) -> Seq<StartupStep> {
    if spec_transport_enabled(cli, config, transport) && caps.spec_supports(transport) {
        planned_binds(cli, config, transport)
    } else {
        Seq::empty()
    }
}

proof fn no_binds_around_registration(
    cli: &CliOptions,
    config: &ServerConfig,
    caps: Capabilities,
    transport: Transport,
)
    ensures
        binds_of(opening_steps(cli, config, caps), transport) == Seq::<StartupStep>::empty(),
        binds_of(closing_steps(caps), transport) == Seq::<StartupStep>::empty(),
        binds_of(seq![StartupStep::LoadCredential], transport) == Seq::<StartupStep>::empty(),
        binds_of(seq![StartupStep::Note(Notice::CredentialMissing)], transport) == Seq::<
            StartupStep,
        >::empty(),
{
    reveal(opening_steps);
    reveal(closing_steps);
    let pred = binds_for(transport);
    filter_keeps_none(opening_steps(cli, config, caps), pred);
    filter_keeps_none(closing_steps(caps), pred);
    filter_keeps_none(seq![StartupStep::LoadCredential], pred);
    filter_keeps_none(seq![StartupStep::Note(Notice::CredentialMissing)], pred);
}

proof fn binds_of_joined(a: Seq<StartupStep>, b: Seq<StartupStep>, transport: Transport)
    ensures
        binds_of(a + b, transport) == binds_of(a, transport) + binds_of(b, transport),
{
    Seq::filter_distributes_over_add(a, b, binds_for(transport));
}

proof fn binds_of_three(
    a: Seq<StartupStep>,
    b: Seq<StartupStep>,
    c: Seq<StartupStep>,
    transport: Transport,
)
    ensures
        binds_of(a + b + c, transport) == binds_of(a, transport) + binds_of(b, transport)
            + binds_of(c, transport),
{
    binds_of_joined(a, b, transport);
    binds_of_joined(a + b, c, transport);
}

proof fn binds_of_secure_transport_steps(
    cli: &CliOptions,
    config: &ServerConfig,
    caps: Capabilities,
    transport: Transport,
)
    ensures
        binds_of(secure_transport_steps(cli, config, caps), transport) == if
            transport.spec_needs_credential() {
            binds_where_enabled(cli, config, caps, transport)
        } else {
            Seq::<StartupStep>::empty()
        },
{
    let none = Seq::<StartupStep>::empty();
    let wanted = binds_where_enabled(cli, config, caps, transport);
    binds_of_transport_steps(cli, config, caps, Transport::Tls, transport);
    binds_of_transport_steps(cli, config, caps, Transport::Https, transport);
    binds_of_transport_steps(cli, config, caps, Transport::Quic, transport);
    binds_of_three(
        transport_steps(cli, config, caps, Transport::Tls),
        transport_steps(cli, config, caps, Transport::Https),
        transport_steps(cli, config, caps, Transport::Quic),
        transport,
    );
    assert(wanted + none + none =~= wanted);
    assert(none + wanted + none =~= wanted);
    assert(none + none + wanted =~= wanted);
    assert(none + none + none =~= none);
}

proof fn binds_of_secure_steps(
    cli: &CliOptions,
    config: &ServerConfig,
    caps: Capabilities,
    transport: Transport,
)
    ensures
        binds_of(secure_steps(cli, config, caps), transport) == if config.tls_cert is Some
            && transport.spec_needs_credential() {
            binds_where_enabled(cli, config, caps, transport)
        } else {
            Seq::<StartupStep>::empty()
        },
{
    let none = Seq::<StartupStep>::empty();
    if config.tls_cert is None {
        filter_keeps_none(
            seq![StartupStep::Note(Notice::CredentialMissing)],
            binds_for(transport),
        );
    } else {
        let all = secure_transport_steps(cli, config, caps);
        let load = seq![StartupStep::LoadCredential];
        binds_of_secure_transport_steps(cli, config, caps, transport);
        filter_keeps_none(load, binds_for(transport));
        binds_of_joined(load, all, transport);
        assert(none + binds_of(all, transport) =~= binds_of(all, transport));
    }
}

proof fn binds_of_registration_steps(
    cli: &CliOptions,
    config: &ServerConfig,
    caps: Capabilities,
    transport: Transport,
)
    ensures
        binds_of(registration_steps(cli, config, caps), transport) == if
            transport.spec_needs_credential() ==> config.tls_cert is Some {
            binds_where_enabled(cli, config, caps, transport)
        } else {
            Seq::<StartupStep>::empty()
        },
{
    let udp = transport_steps(cli, config, caps, Transport::Udp);
    let tcp = transport_steps(cli, config, caps, Transport::Tcp);
    let secure = secure_steps(cli, config, caps);
    binds_of_transport_steps(cli, config, caps, Transport::Udp, transport);
    binds_of_transport_steps(cli, config, caps, Transport::Tcp, transport);
    binds_of_secure_steps(cli, config, caps, transport);
    binds_of_joined(udp, tcp, transport);
    binds_of_joined(udp + tcp, secure, transport);
    assert(binds_of(registration_steps(cli, config, caps), transport) =~= binds_of(udp, transport)
        + binds_of(tcp, transport) + binds_of(secure, transport));
}

/// Under every setting the binds of a transport are these: one for each
/// planned address, in the order of the plan and on the transport's port,
/// where the server listens on the transport; none at all where it does not.
/// So a disabled transport never binds, and neither does a validating run.
pub proof fn binds_are_the_planned_ones(
    cli: &CliOptions,
    config: &ServerConfig,
    caps: Capabilities,
    transport: Transport,
)
    ensures
        binds_of(startup_plan(cli, config, caps), transport) == if serves(
            cli,
            config,
            caps,
            transport,
        ) {
            planned_binds(cli, config, transport)
        } else {
            Seq::<StartupStep>::empty()
        },
{
    let none = Seq::<StartupStep>::empty();
    let opening = opening_steps(cli, config, caps);
    no_binds_around_registration(cli, config, caps, transport);
    if cli.validate {
        validating_run_opens_no_socket(cli, config, caps);
        filter_keeps_none(startup_plan(cli, config, caps), binds_for(transport));
    } else {
        let registration = registration_steps(cli, config, caps);
        let closing = closing_steps(caps);
        binds_of_registration_steps(cli, config, caps, transport);
        binds_of_joined(opening, registration, transport);
        binds_of_joined(opening + registration, closing, transport);
        let found = binds_of(registration, transport);
        assert(none + found + none =~= found);
    }
}

/// The certificate is loaded at most once, and before every bind of TLS,
/// HTTPS and QUIC.
pub proof fn credential_is_loaded_once_before_use(
    cli: &CliOptions,
    config: &ServerConfig,
    caps: Capabilities,
    i: int,
    j: int,
)
    requires
        0 <= i < startup_plan(cli, config, caps).len(),
        0 <= j < startup_plan(cli, config, caps).len(),
        startup_plan(cli, config, caps)[j] == StartupStep::LoadCredential,
    ensures
        startup_plan(cli, config, caps)[i] == StartupStep::LoadCredential ==> i == j,
        startup_plan(cli, config, caps)[i] is Listen && startup_plan(
            cli,
            config,
            caps,
        )[i]->Listen_transport.spec_needs_credential() ==> j < i,
{
    let plan = startup_plan(cli, config, caps);
    if plan[i] == StartupStep::LoadCredential {
        credential_slot(cli, config, caps, i);
        credential_slot(cli, config, caps, j);
    }
    if plan[i] is Listen && plan[i]->Listen_transport.spec_needs_credential() {
        startup_in_order(cli, config, caps);
        if i <= j {
            assert(stage(plan[i]) <= stage(plan[j]));
        }
    }
}

spec fn lacks(steps: Seq<StartupStep>, step: StartupStep) -> bool {
    forall|i: int| 0 <= i < steps.len() ==> #[trigger] steps[i] != step
}

proof fn joined_lacks(a: Seq<StartupStep>, b: Seq<StartupStep>, step: StartupStep)
    requires
        lacks(a, step),
        lacks(b, step),
    ensures
        lacks(a + b, step),
{
    assert forall|i: int| 0 <= i < (a + b).len() implies #[trigger] (a + b)[i] != step by {
        if i < a.len() {
            assert((a + b)[i] == a[i]);
        } else {
            assert((a + b)[i] == b[i - a.len()]);
        }
    }
}

proof fn transport_steps_lack_credential(
    cli: &CliOptions,
    config: &ServerConfig,
    caps: Capabilities,
    transport: Transport,
)
    ensures
        lacks(transport_steps(cli, config, caps, transport), StartupStep::LoadCredential),
{
    reveal(transport_steps);
}

proof fn credential_leads_secure_steps(
    cli: &CliOptions,
    config: &ServerConfig,
    caps: Capabilities,
    q: int,
)
    requires
        0 <= q < secure_steps(cli, config, caps).len(),
        secure_steps(cli, config, caps)[q] == StartupStep::LoadCredential,
    ensures
        q == 0,
{
    let load = StartupStep::LoadCredential;
    let tls = transport_steps(cli, config, caps, Transport::Tls);
    let https = transport_steps(cli, config, caps, Transport::Https);
    let quic = transport_steps(cli, config, caps, Transport::Quic);
    let all = secure_transport_steps(cli, config, caps);
    transport_steps_lack_credential(cli, config, caps, Transport::Tls);
    transport_steps_lack_credential(cli, config, caps, Transport::Https);
    transport_steps_lack_credential(cli, config, caps, Transport::Quic);
    joined_lacks(tls, https, load);
    joined_lacks(tls + https, quic, load);
    assert(lacks(all, load));
    if config.tls_cert is Some && has_listen(all) && q > 0 {
        assert(secure_steps(cli, config, caps)[q] == all[q - 1]);
    }
}

proof fn credential_slot_in_registration(
    cli: &CliOptions,
    config: &ServerConfig,
    caps: Capabilities,
    r: int,
)
    requires
        0 <= r < registration_steps(cli, config, caps).len(),
        registration_steps(cli, config, caps)[r] == StartupStep::LoadCredential,
    ensures
        r == transport_steps(cli, config, caps, Transport::Udp).len() + transport_steps(
            cli,
            config,
            caps,
            Transport::Tcp,
        ).len(),
{
    let load = StartupStep::LoadCredential;
    let udp = transport_steps(cli, config, caps, Transport::Udp);
    let tcp = transport_steps(cli, config, caps, Transport::Tcp);
    let secure = secure_steps(cli, config, caps);
    transport_steps_lack_credential(cli, config, caps, Transport::Udp);
    transport_steps_lack_credential(cli, config, caps, Transport::Tcp);
    joined_lacks(udp, tcp, load);
    let head = udp + tcp;
    assert(registration_steps(cli, config, caps) == head + secure);
    if r >= head.len() {
        assert((head + secure)[r] == secure[r - head.len()]);
        credential_leads_secure_steps(cli, config, caps, r - head.len());
    }
}

proof fn surroundings_hold_no_bind_and_no_credential(
    cli: &CliOptions,
    config: &ServerConfig,
    caps: Capabilities,
)
    ensures
        forall|k: int|
            0 <= k < opening_steps(cli, config, caps).len() ==> !((#[trigger] opening_steps(
                cli,
                config,
                caps,
            )[k]) is Listen) && opening_steps(cli, config, caps)[k] != StartupStep::LoadCredential,
        forall|k: int|
            0 <= k < closing_steps(caps).len() ==> !((#[trigger] closing_steps(caps)[k]) is Listen)
                && closing_steps(caps)[k] != StartupStep::LoadCredential,
{
    reveal(opening_steps);
    reveal(closing_steps);
}

proof fn credential_slot(cli: &CliOptions, config: &ServerConfig, caps: Capabilities, j: int)
    requires
        0 <= j < startup_plan(cli, config, caps).len(),
        startup_plan(cli, config, caps)[j] == StartupStep::LoadCredential,
    ensures
        j == opening_steps(cli, config, caps).len() + transport_steps(cli, config, caps, Transport::Udp).len()
            + transport_steps(cli, config, caps, Transport::Tcp).len(),
{
    let plan = startup_plan(cli, config, caps);
    let opening = opening_steps(cli, config, caps);
    let closing = closing_steps(caps);
    let registration = registration_steps(cli, config, caps);
    surroundings_hold_no_bind_and_no_credential(cli, config, caps);
    if cli.validate {
        validating_run_opens_no_socket(cli, config, caps);
    } else {
        assert(plan == opening + registration + closing);
        if j < opening.len() {
            assert(plan[j] == opening[j]);
        } else if j < opening.len() + registration.len() {
            assert(plan[j] == registration[j - opening.len()]);
            credential_slot_in_registration(cli, config, caps, j - opening.len());
        } else {
            assert(plan[j] == closing[j - opening.len() - registration.len()]);
        }
    }
}

proof fn transport_steps_bind_their_transport(
    cli: &CliOptions,
    config: &ServerConfig,
    caps: Capabilities,
    of: Transport,
)
    ensures
        forall|k: int|
            0 <= k < transport_steps(cli, config, caps, of).len() && (#[trigger] transport_steps(
                cli,
                config,
                caps,
                of,
            )[k]) is Listen ==> transport_steps(cli, config, caps, of)[k]->Listen_transport == of,
{
    reveal(transport_steps);
}

/// Before any bind of TLS, HTTPS or QUIC the certificate has been loaded.
pub proof fn secure_bind_follows_credential(
    cli: &CliOptions,
    config: &ServerConfig,
    caps: Capabilities,
    i: int,
) -> (j: int)
    requires
        0 <= i < startup_plan(cli, config, caps).len(),
        startup_plan(cli, config, caps)[i] is Listen,
        startup_plan(cli, config, caps)[i]->Listen_transport.spec_needs_credential(),
    ensures
        0 <= j < i,
        startup_plan(cli, config, caps)[j] == StartupStep::LoadCredential,
{
    let plan = startup_plan(cli, config, caps);
    let opening = opening_steps(cli, config, caps);
    let registration = registration_steps(cli, config, caps);
    let udp = transport_steps(cli, config, caps, Transport::Udp);
    let tcp = transport_steps(cli, config, caps, Transport::Tcp);
    let secure = secure_steps(cli, config, caps);
    let all = secure_transport_steps(cli, config, caps);
    let plain = (udp.len() + tcp.len()) as int;
    let base = opening.len() + plain;
    transport_steps_bind_their_transport(cli, config, caps, Transport::Udp);
    transport_steps_bind_their_transport(cli, config, caps, Transport::Tcp);
    surroundings_hold_no_bind_and_no_credential(cli, config, caps);
    if cli.validate {
        validating_run_opens_no_socket(cli, config, caps);
    }
    assert(!cli.validate);
    if i < opening.len() {
        assert(false);
    } else if i < opening.len() + registration.len() {
        let r = i - opening.len();
        assert(plan[i] == registration[r]);
        if r < udp.len() {
            assert(registration[r] == udp[r]);
            assert(false);
        } else if r < udp.len() + tcp.len() {
            assert(registration[r] == tcp[r - udp.len()]);
            assert(false);
        } else {
            let q = r - udp.len() - tcp.len();
            assert(registration[r] == secure[q]);
            assert(config.tls_cert is Some);
            if !has_listen(all) {
                assert(secure[q] == all[q]);
                assert(all[q].is_listen());
                assert(false);
            }
            assert(secure[0] == StartupStep::LoadCredential);
            assert(registration[plain] == secure[0]);
            assert(plan[base] == registration[plain]);
            assert(q > 0);
        }
    } else {
        assert(plan[i] == closing_steps(caps)[i - opening.len() - registration.len()]);
        assert(false);
    }
    base
}

/// A step is due only when every step before it has succeeded: the server
/// never serves, nor drops privileges, after a bind that failed.
pub proof fn due_step_follows_completed_ones(startup: &Startup, k: int)
    requires
        startup.wf(),
        startup.spec_current() is Some,
        0 <= k < startup.done,
    ensures
        startup.completed().len() == startup.done,
        startup.completed()[k] == startup.steps@[k],
        startup.spec_current() == Some(startup.steps@[startup.done as int]),
{
}

/// A failed start-up stays failed: it hands out no step and has no exit but
/// that of its failure.
pub proof fn failure_is_final(startup: &Startup)
    requires
        startup.wf(),
        startup.failure is Some,
    ensures
        startup.spec_current() is None,
        !startup.spec_finished(),
        startup.spec_exit() == Some(startup.failure->0.category.spec_exit()),
        startup.spec_exit() != Some(crate::startup::Exit::Success),
{
}

} // verus!

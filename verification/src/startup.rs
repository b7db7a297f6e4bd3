//! The start-up sequence: which steps bring the server up, in which order, and
//! what becomes of the sequence when a step fails.
//!
//! The sequence is computed from the settings before anything is done, so a
//! disabled transport never opens a socket, and a validating run opens none
//! at all: no bind for a transport and no metrics listener.
//! The program performs the steps one by one and reports each result back.

use vstd::prelude::*;
use vstd::string::StringExecFns;
use crate::config::metrics_enabled;
use crate::config::metrics_endpoint;
use crate::config::spec_metrics_enabled;
use crate::config::spec_metrics_endpoint;
use crate::config::Capabilities;
use crate::config::CliOptions;
use crate::config::ServerConfig;
use crate::net::IpAddress;
use crate::net::SocketAddress;
use crate::net::Transport;
use crate::plan::effective_port;
use crate::plan::listen_addresses;
use crate::plan::planned_addresses;
use crate::plan::planned_port;

verus! {

/// Something worth telling the operator that is no failure.
#[derive(Clone, Copy, Debug, PartialEq, Eq, Structural)]
pub enum Notice {
    /// The configuration and its zones are sound; nothing will be served.
    Validated,
    /// The command line or the configuration disables the transport.
    TransportDisabled(Transport),
    /// The transport is enabled but this build cannot serve it.
    TransportUnavailable(Transport),
    /// No certificate is configured, so TLS, HTTPS and QUIC stay off.
    CredentialMissing,
    /// A certificate is configured but there is no address to listen on.
    NoAddresses(Transport),
    /// The command line or the configuration disables the metrics.
    MetricsDisabled,
}

/// One step of bringing the server up.
#[derive(Clone, Copy, Debug, PartialEq, Eq, Structural)]
pub enum StartupStep {
    /// Serve the metrics on this endpoint.
    StartMetrics { endpoint: SocketAddress },
    /// Ask the system to deliver the termination signal to this process.
    RegisterSignal,
    /// Load every configured zone into the catalog.
    BuildCatalog,
    /// Tell the operator something.
    Note(Notice),
    /// Load the certificate and key that TLS, HTTPS and QUIC share.
    LoadCredential,
    /// Bind a socket and hand it to the query engine.
    Listen { transport: Transport, address: IpAddress, port: u16 },
    /// Give up superuser rights.
    DropPrivileges,
    /// Start the task that turns the termination signal into cancellation.
    SpawnShutdownTask,
    /// Answer queries until cancelled.
    Serve,
}

/// The kinds of failure that end a start-up.
#[derive(Clone, Copy, Debug, PartialEq, Eq, Structural)]
pub enum ErrorCategory {
    Config,
    Metrics,
    Signal,
    ZoneLoad,
    Bind,
    CertLoad,
    Drop,
    Runtime,
}

/// How the process ends.
#[derive(Clone, Copy, Debug, PartialEq, Eq, Structural)]
pub enum Exit {
    /// Status 0: validation passed, or the server was cancelled and stopped.
    Success,
    /// A non-zero status after a one-line error: start-up failed.
    Failure,
    /// An abnormal end: the running query engine reported a fault.
    Abort,
}

impl Notice {
    /// Whether the notice is a warning; the others are for information.
    pub open spec fn spec_is_warning(self) -> bool {
        self is NoAddresses
    }

    /// Whether the notice is a warning; the others are for information.
    pub fn is_warning(self) -> (warning: bool)
        ensures
            warning == self.spec_is_warning(),
    {
        match self {
            Notice::NoAddresses(_) => true,
            _ => false,
        }
    }

    /// The notice in words.
    pub open spec fn spec_message(self) -> Seq<char> {
        match self {
            Notice::Validated => "configuration files are validated"@,
            Notice::TransportDisabled(transport) => transport.spec_name()
                + " protocol is disabled"@,
            Notice::TransportUnavailable(transport) => transport.spec_name()
                + " protocol is not available in this build"@,
            Notice::CredentialMissing =>
                "TLS certificates are not provided; TLS related protocols (TLS, HTTPS and QUIC) are disabled"@,
            Notice::NoAddresses(transport) => "a tls certificate was specified, but no "@
                + transport.spec_name() + " addresses configured to listen on"@,
            Notice::MetricsDisabled => "Prometheus metrics are disabled"@,
        }
    }

    /// The notice in words.
    pub fn message(self) -> (text: String)
        ensures
            text@ == self.spec_message(),
    {
        match self {
            Notice::Validated => String::from_str("configuration files are validated"),
            Notice::TransportDisabled(transport) => {
                let mut text = String::from_str(transport.name());
                text.append(" protocol is disabled");
                text
            },
            Notice::TransportUnavailable(transport) => {
                let mut text = String::from_str(transport.name());
                text.append(" protocol is not available in this build");
                text
            },
            Notice::CredentialMissing => String::from_str(
                "TLS certificates are not provided; TLS related protocols (TLS, HTTPS and QUIC) are disabled",
            ),
            Notice::NoAddresses(transport) => {
                let mut text = String::from_str("a tls certificate was specified, but no ");
                text.append(transport.name());
                text.append(" addresses configured to listen on");
                text
            },
            Notice::MetricsDisabled => String::from_str("Prometheus metrics are disabled"),
        }
    }
}

impl StartupStep {
    /// Whether the step binds a socket.
    pub open spec fn is_listen(self) -> bool {
        self is Listen
    }

    /// The category of the error that a failure of this step is reported as.
    pub open spec fn spec_failure_category(self) -> ErrorCategory {
        match self {
            StartupStep::StartMetrics { .. } => ErrorCategory::Metrics,
            StartupStep::RegisterSignal => ErrorCategory::Signal,
            StartupStep::BuildCatalog => ErrorCategory::ZoneLoad,
            StartupStep::Note(_) => ErrorCategory::Config,
            StartupStep::LoadCredential => ErrorCategory::CertLoad,
            StartupStep::Listen { .. } => ErrorCategory::Bind,
            StartupStep::DropPrivileges => ErrorCategory::Drop,
            StartupStep::SpawnShutdownTask => ErrorCategory::Signal,
            StartupStep::Serve => ErrorCategory::Runtime,
        }
    }

    /// The category of the error that a failure of this step is reported as.
    pub fn failure_category(self) -> (category: ErrorCategory)
        ensures
            category == self.spec_failure_category(),
    {
        match self {
            StartupStep::StartMetrics { .. } => ErrorCategory::Metrics,
            StartupStep::RegisterSignal => ErrorCategory::Signal,
            StartupStep::BuildCatalog => ErrorCategory::ZoneLoad,
            StartupStep::Note(_) => ErrorCategory::Config,
            StartupStep::LoadCredential => ErrorCategory::CertLoad,
            StartupStep::Listen { .. } => ErrorCategory::Bind,
            StartupStep::DropPrivileges => ErrorCategory::Drop,
            StartupStep::SpawnShutdownTask => ErrorCategory::Signal,
            StartupStep::Serve => ErrorCategory::Runtime,
        }
    }
}

impl ErrorCategory {
    /// A fault of the running engine aborts the process; every other failure
    /// ends it with a non-zero status.
    pub open spec fn spec_exit(self) -> Exit {
        if self == ErrorCategory::Runtime {
            Exit::Abort
        } else {
            Exit::Failure
        }
    }

    /// How the process ends, once it is known.
    pub fn exit(self) -> (exit: Exit)
        ensures
            exit == self.spec_exit(),
    {
        match self {
            ErrorCategory::Runtime => Exit::Abort,
            _ => Exit::Failure,
        }
    }
}

impl Exit {
    /// The status the process exits with; `None` where it aborts instead.
    pub fn status(self) -> (status: Option<i32>)
        ensures
            self == Exit::Success ==> status == Some(0i32),
            self == Exit::Failure ==> status == Some(1i32),
            self == Exit::Abort ==> status is None,
    {
        match self {
            Exit::Success => Some(0),
            Exit::Failure => Some(1),
            Exit::Abort => None,
        }
    }
}

/// A transport is served only when neither the command line nor the
/// configuration disables it.
pub open spec fn spec_transport_enabled(
    cli: &CliOptions,
    config: &ServerConfig,
    transport: Transport,
) -> bool {
    !cli.spec_disables(transport) && !config.spec_disables(transport)
}

/// The port that `transport` binds under these settings.
pub open spec fn spec_transport_port(
    cli: &CliOptions,
    config: &ServerConfig,
    transport: Transport,
) -> u16 {
    planned_port(transport, cli.spec_port_override(transport), config.spec_configured_port(transport))
}

/// The addresses that every transport binds under this configuration.
pub open spec fn spec_listen_addresses(config: &ServerConfig) -> Seq<IpAddress> {
    planned_addresses(config.listen_addrs_ipv4@, config.listen_addrs_ipv6@)
}

/// One `Listen` step for each address, in the order of the addresses.
pub open spec fn listen_steps(transport: Transport, addresses: Seq<IpAddress>, port: u16) -> Seq<
    StartupStep,
> {
    addresses.map_values(
        |address: IpAddress| StartupStep::Listen { transport, address, port },
    )
}

/// The binds of `transport` under these settings, where the server listens
/// on it: one for each planned address, in the order of the plan, on the
/// transport's port.
#[verifier::opaque]
pub open spec fn planned_binds(cli: &CliOptions, config: &ServerConfig, transport: Transport) -> Seq<
    StartupStep,
> {
    listen_steps(
        transport,
        spec_listen_addresses(config),
        spec_transport_port(cli, config, transport),
    )
}

/// What registering UDP or TCP on `addresses` takes: a bind for each address.
/// An empty list binds nothing and says nothing.
pub open spec fn plain_registration(
    transport: Transport,
    addresses: Seq<IpAddress>,
    port: u16,
) -> Seq<StartupStep> {
    listen_steps(transport, addresses, port)
}

/// What registering TLS, HTTPS or QUIC on `addresses` takes: a bind for each
/// address, or a warning where there is none.
pub open spec fn secure_registration(
    transport: Transport,
    addresses: Seq<IpAddress>,
    port: u16,
) -> Seq<StartupStep> {
    if addresses.len() == 0 {
        seq![StartupStep::Note(Notice::NoAddresses(transport))]
    } else {
        listen_steps(transport, addresses, port)
    }
}

/// The steps that `transport` contributes to the start-up, given that its
/// credential, if it needs one, is configured.
#[verifier::opaque]
pub open spec fn transport_steps(
    cli: &CliOptions,
    config: &ServerConfig,
    caps: Capabilities,
    transport: Transport,
) -> Seq<StartupStep> {
    if !spec_transport_enabled(cli, config, transport) {
        seq![StartupStep::Note(Notice::TransportDisabled(transport))]
    } else if !caps.spec_supports(transport) {
        seq![StartupStep::Note(Notice::TransportUnavailable(transport))]
    } else if transport.spec_needs_credential() {
        secure_registration(
            transport,
            spec_listen_addresses(config),
            spec_transport_port(cli, config, transport),
        )
    } else {
        plain_registration(
            transport,
            spec_listen_addresses(config),
            spec_transport_port(cli, config, transport),
        )
    }
}

/// The steps of TLS, HTTPS and QUIC together, before the credential is
/// considered.
pub open spec fn secure_transport_steps(
    cli: &CliOptions,
    config: &ServerConfig,
    caps: Capabilities,
) -> Seq<StartupStep> {
    transport_steps(cli, config, caps, Transport::Tls) + transport_steps(
        cli,
        config,
        caps,
        Transport::Https,
    ) + transport_steps(cli, config, caps, Transport::Quic)
}

/// Whether one of the steps binds a socket.
pub open spec fn has_listen(steps: Seq<StartupStep>) -> bool {
    exists|i: int| 0 <= i < steps.len() && (#[trigger] steps[i]).is_listen()
}

/// The part of the start-up that TLS, HTTPS and QUIC make up. Without a
/// configured certificate all three stay off. With one, it is loaded once,
/// before the first of their binds, and not at all where none of them binds.
pub open spec fn secure_steps(cli: &CliOptions, config: &ServerConfig, caps: Capabilities) -> Seq<
    StartupStep,
> {
    if config.tls_cert is None {
        seq![StartupStep::Note(Notice::CredentialMissing)]
    } else if has_listen(secure_transport_steps(cli, config, caps)) {
        seq![StartupStep::LoadCredential] + secure_transport_steps(cli, config, caps)
    } else {
        secure_transport_steps(cli, config, caps)
    }
}

/// Every bind of the start-up, in registration order: UDP, TCP, TLS, HTTPS,
/// QUIC.
pub open spec fn registration_steps(
    cli: &CliOptions,
    config: &ServerConfig,
    caps: Capabilities,
) -> Seq<StartupStep> {
    transport_steps(cli, config, caps, Transport::Udp) + transport_steps(
        cli,
        config,
        caps,
        Transport::Tcp,
    ) + secure_steps(cli, config, caps)
}

/// What the metrics contribute to a start-up that serves: nothing where the
/// build has none, a notice where they are disabled, else their start. A
/// validating run has no part in this: it opens no listener of any kind.
pub open spec fn metrics_steps(cli: &CliOptions, config: &ServerConfig, caps: Capabilities) -> Seq<
    StartupStep,
> {
    if !caps.metrics {
        Seq::empty()
    } else if !spec_metrics_enabled(cli, config) {
        seq![StartupStep::Note(Notice::MetricsDisabled)]
    } else {
        seq![StartupStep::StartMetrics { endpoint: spec_metrics_endpoint(cli, config) }]
    }
}

/// What every run begins with, once the metrics are seen to: the signal
/// registration, where the platform has signals, and the catalog.
pub open spec fn preparing_steps(caps: Capabilities) -> Seq<StartupStep> {
    if caps.posix {
        seq![StartupStep::RegisterSignal, StartupStep::BuildCatalog]
    } else {
        seq![StartupStep::BuildCatalog]
    }
}

/// What precedes the binds of a run that serves: the metrics, the signal
/// registration and the catalog.
#[verifier::opaque]
pub open spec fn opening_steps(cli: &CliOptions, config: &ServerConfig, caps: Capabilities) -> Seq<
    StartupStep,
> {
    metrics_steps(cli, config, caps) + preparing_steps(caps)
}

/// What follows the binds: the privilege drop, then the shutdown task, where
/// the platform has signals, then serving.
#[verifier::opaque]
pub open spec fn closing_steps(caps: Capabilities) -> Seq<StartupStep> {
    if caps.posix {
        seq![StartupStep::DropPrivileges, StartupStep::SpawnShutdownTask, StartupStep::Serve]
    } else {
        seq![StartupStep::DropPrivileges, StartupStep::Serve]
    }
}

/// The whole start-up. A validating run loads the zones and stops: it starts
/// no metrics, binds nothing, drops no privileges and never serves.
pub open spec fn startup_plan(cli: &CliOptions, config: &ServerConfig, caps: Capabilities) -> Seq<
    StartupStep,
> {
    if cli.validate {
        preparing_steps(caps) + seq![StartupStep::Note(Notice::Validated)]
    } else {
        opening_steps(cli, config, caps) + registration_steps(cli, config, caps) + closing_steps(
            caps,
        )
    }
}

/// A transport is served only when neither the command line nor the
/// configuration disables it.
pub fn transport_enabled(cli: &CliOptions, config: &ServerConfig, transport: Transport) -> (enabled:
    bool)
    ensures
        enabled == spec_transport_enabled(cli, config, transport),
{
    !cli.disables(transport) && !config.disables(transport)
}

/// The port that `transport` binds under these settings.
pub fn transport_port(cli: &CliOptions, config: &ServerConfig, transport: Transport) -> (port: u16)
    ensures
        port == spec_transport_port(cli, config, transport),
{
    effective_port(transport, cli.port_override(transport), config.configured_port(transport))
}

fn push_listens(
    steps: &mut Vec<StartupStep>,
    transport: Transport,
    addresses: &Vec<IpAddress>,
    port: u16,
)
    ensures
        final(steps)@ == old(steps)@ + listen_steps(transport, addresses@, port),
{
    let ghost before = steps@;
    let mut i: usize = 0;
    while i < addresses.len()
        invariant
            i <= addresses@.len(),
            steps@ == before + listen_steps(transport, addresses@.take(i as int), port),
        decreases addresses@.len() - i,
    {
        steps.push(StartupStep::Listen { transport, address: addresses[i], port });
        i += 1;
        assert(steps@ =~= before + listen_steps(transport, addresses@.take(i as int), port));
    }
    assert(addresses@.take(i as int) =~= addresses@);
}

/// Registers UDP on every address of the list. Nothing is said where the list
/// is empty: the address planner never hands out an empty list.
pub fn register_udp(addresses: &Vec<IpAddress>, port: u16) -> (steps: Vec<StartupStep>)
    ensures
        steps@ == plain_registration(Transport::Udp, addresses@, port),
{
    let mut steps: Vec<StartupStep> = Vec::new();
    push_listens(&mut steps, Transport::Udp, addresses, port);
    assert(steps@ =~= plain_registration(Transport::Udp, addresses@, port));
    steps
}

/// Registers TCP on every address of the list. Nothing is said where the list
/// is empty: the address planner never hands out an empty list.
pub fn register_tcp(addresses: &Vec<IpAddress>, port: u16) -> (steps: Vec<StartupStep>)
    ensures
        steps@ == plain_registration(Transport::Tcp, addresses@, port),
{
    let mut steps: Vec<StartupStep> = Vec::new();
    push_listens(&mut steps, Transport::Tcp, addresses, port);
    assert(steps@ =~= plain_registration(Transport::Tcp, addresses@, port));
    steps
}

fn register_secure(transport: Transport, addresses: &Vec<IpAddress>, port: u16) -> (steps: Vec<
    StartupStep,
>)
    ensures
        steps@ == secure_registration(transport, addresses@, port),
{
    let mut steps: Vec<StartupStep> = Vec::new();
    if addresses.len() == 0 {
        steps.push(StartupStep::Note(Notice::NoAddresses(transport)));
        assert(steps@ =~= secure_registration(transport, addresses@, port));
    } else {
        push_listens(&mut steps, transport, addresses, port);
        assert(steps@ =~= secure_registration(transport, addresses@, port));
    }
    steps
}

/// Registers DNS over TLS on every address of the list. With an empty list
/// it warns and registers nothing, which is no failure.
pub fn register_tls(addresses: &Vec<IpAddress>, port: u16) -> (steps: Vec<StartupStep>)
    ensures
        steps@ == secure_registration(Transport::Tls, addresses@, port),
{
    register_secure(Transport::Tls, addresses, port)
}

/// Registers DNS over HTTPS on every address of the list. With an empty list
/// it warns and registers nothing, which is no failure.
pub fn register_https(addresses: &Vec<IpAddress>, port: u16) -> (steps: Vec<StartupStep>)
    ensures
        steps@ == secure_registration(Transport::Https, addresses@, port),
{
    register_secure(Transport::Https, addresses, port)
}

/// Registers DNS over QUIC on every address of the list. With an empty list
/// it warns and registers nothing, which is no failure.
pub fn register_quic(addresses: &Vec<IpAddress>, port: u16) -> (steps: Vec<StartupStep>)
    ensures
        steps@ == secure_registration(Transport::Quic, addresses@, port),
{
    register_secure(Transport::Quic, addresses, port)
}

/// The steps that one transport contributes, decided before any socket is
/// opened: a notice where it is disabled or unavailable, its binds otherwise.
pub fn register_transport(
    cli: &CliOptions,
    config: &ServerConfig,
    caps: Capabilities,
    transport: Transport,
) -> (steps: Vec<StartupStep>)
    ensures
        steps@ == transport_steps(cli, config, caps, transport),
{
    reveal(transport_steps);
    if !transport_enabled(cli, config, transport) {
        let mut steps: Vec<StartupStep> = Vec::new();
        steps.push(StartupStep::Note(Notice::TransportDisabled(transport)));
        assert(steps@ =~= transport_steps(cli, config, caps, transport));
        steps
    } else if !caps.supports(transport) {
        let mut steps: Vec<StartupStep> = Vec::new();
        steps.push(StartupStep::Note(Notice::TransportUnavailable(transport)));
        assert(steps@ =~= transport_steps(cli, config, caps, transport));
        steps
    } else {
        let addresses = listen_addresses(&config.listen_addrs_ipv4, &config.listen_addrs_ipv6);
        let port = transport_port(cli, config, transport);
        match transport {
            Transport::Udp => register_udp(&addresses, port),
            Transport::Tcp => register_tcp(&addresses, port),
            Transport::Tls => register_tls(&addresses, port),
            Transport::Https => register_https(&addresses, port),
            Transport::Quic => register_quic(&addresses, port),
        }
    }
}

fn append_steps(steps: &mut Vec<StartupStep>, more: &Vec<StartupStep>)
    ensures
        final(steps)@ == old(steps)@ + more@,
{
    let ghost before = steps@;
    let mut i: usize = 0;
    while i < more.len()
        invariant
            i <= more@.len(),
            steps@ == before + more@.take(i as int),
        decreases more@.len() - i,
    {
        steps.push(more[i]);
        i += 1;
        assert(steps@ =~= before + more@.take(i as int));
    }
    assert(more@.take(i as int) =~= more@);
}

fn any_listen(steps: &Vec<StartupStep>) -> (found: bool)
    ensures
        found == has_listen(steps@),
{
    let mut i: usize = 0;
    while i < steps.len()
        invariant
            i <= steps@.len(),
            forall|k: int| 0 <= k < i ==> !(#[trigger] steps@[k]).is_listen(),
        decreases steps@.len() - i,
    {
        match steps[i] {
            StartupStep::Listen { .. } => {
                return true;
            },
            _ => {},
        }
        i += 1;
    }
    false
}

/// Computes the whole start-up from the settings.
pub fn plan_startup(cli: &CliOptions, config: &ServerConfig, caps: Capabilities) -> (steps: Vec<
    StartupStep,
>)
    ensures
        steps@ == startup_plan(cli, config, caps),
{
    reveal(opening_steps);
    reveal(closing_steps);
    let mut steps: Vec<StartupStep> = Vec::new();
    if caps.metrics && !cli.validate {
        if metrics_enabled(cli, config) {
            steps.push(StartupStep::StartMetrics { endpoint: metrics_endpoint(cli, config) });
        } else {
            steps.push(StartupStep::Note(Notice::MetricsDisabled));
        }
    }
    if caps.posix {
        steps.push(StartupStep::RegisterSignal);
    }
    steps.push(StartupStep::BuildCatalog);
    if cli.validate {
        steps.push(StartupStep::Note(Notice::Validated));
        assert(steps@ =~= startup_plan(cli, config, caps));
        return steps;
    }
    assert(steps@ =~= opening_steps(cli, config, caps));
    let udp = register_transport(cli, config, caps, Transport::Udp);
    let tcp = register_transport(cli, config, caps, Transport::Tcp);
    let mut registration: Vec<StartupStep> = Vec::new();
    append_steps(&mut registration, &udp);
    append_steps(&mut registration, &tcp);
    if config.tls_cert.is_none() {
        registration.push(StartupStep::Note(Notice::CredentialMissing));
    } else {
        let tls = register_transport(cli, config, caps, Transport::Tls);
        let https = register_transport(cli, config, caps, Transport::Https);
        let quic = register_transport(cli, config, caps, Transport::Quic);
        let mut secure: Vec<StartupStep> = Vec::new();
        append_steps(&mut secure, &tls);
        append_steps(&mut secure, &https);
        append_steps(&mut secure, &quic);
        assert(secure@ =~= secure_transport_steps(cli, config, caps));
        if any_listen(&secure) {
            registration.push(StartupStep::LoadCredential);
        }
        append_steps(&mut registration, &secure);
    }
    assert(registration@ =~= registration_steps(cli, config, caps));
    append_steps(&mut steps, &registration);
    steps.push(StartupStep::DropPrivileges);
    if caps.posix {
        steps.push(StartupStep::SpawnShutdownTask);
    }
    steps.push(StartupStep::Serve);
    assert(steps@ =~= startup_plan(cli, config, caps));
    steps
}

/// Why a start-up ended early: the step that failed, the category its failure
/// falls under, and the one-line text for the operator.
#[derive(Clone, Debug, PartialEq, Eq)]
pub struct StartupError {
    pub category: ErrorCategory,
    pub step: StartupStep,
    pub detail: String,
}

/// A start-up under way: the sequence of steps, how many of them are done,
/// and the failure that ended it, if one did.
///
/// The steps are performed strictly in order. A failure ends the start-up at
/// once: no later step is ever handed out, so the server is either up on every
/// enabled transport or not running at all.
#[derive(Debug)]
pub struct Startup {
    pub steps: Vec<StartupStep>,
    pub done: usize,
    pub failure: Option<StartupError>,
}

impl Startup {
    /// A failure is always that of the step that was due, under that step's
    /// category.
    pub open spec fn wf(&self) -> bool {
        &&& self.done <= self.steps@.len()
        &&& self.failure is Some ==> {
            &&& self.done < self.steps@.len()
            &&& self.failure->0.step == self.steps@[self.done as int]
            &&& self.failure->0.category == self.steps@[self.done as int].spec_failure_category()
        }
    }

    /// The steps that have been performed with success.
    pub open spec fn completed(&self) -> Seq<StartupStep> {
        self.steps@.take(self.done as int)
    }

    /// The step that is due: none once a step has failed or all are done.
    pub open spec fn spec_current(&self) -> Option<StartupStep> {
        if self.failure is None && self.done < self.steps@.len() {
            Some(self.steps@[self.done as int])
        } else {
            None
        }
    }

    /// Whether every step has been performed with success.
    pub open spec fn spec_finished(&self) -> bool {
        self.failure is None && self.done == self.steps@.len()
    }

    /// How the process ends, once it is known.
    pub open spec fn spec_exit(&self) -> Option<Exit> {
        match self.failure {
            Some(error) => Some(error.category.spec_exit()),
            None => if self.done == self.steps@.len() {
                Some(Exit::Success)
            } else {
                None
            },
        }
    }

    /// Starts with the whole sequence ahead and nothing done.
    pub fn new(cli: &CliOptions, config: &ServerConfig, caps: Capabilities) -> (startup: Startup)
        ensures
            startup.wf(),
            startup.steps@ == startup_plan(cli, config, caps),
            startup.done == 0,
            startup.failure is None,
    {
        Startup { steps: plan_startup(cli, config, caps), done: 0, failure: None }
    }

    /// The step to perform now.
    pub fn current(&self) -> (step: Option<StartupStep>)
        requires
            self.wf(),
        ensures
            step == self.spec_current(),
    {
        if self.failure.is_none() && self.done < self.steps.len() {
            Some(self.steps[self.done])
        } else {
            None
        }
    }

    /// Records that the current step succeeded and moves to the next one.
    /// Where no step is due nothing changes.
    pub fn succeed(&mut self)
        requires
            old(self).wf(),
        ensures
            final(self).wf(),
            final(self).steps == old(self).steps,
            final(self).failure == old(self).failure,
            old(self).spec_current() is Some ==> final(self).done == old(self).done + 1
                && final(self).completed() == old(self).completed().push(
                old(self).spec_current()->0,
            ),
            old(self).spec_current() is None ==> final(self).done == old(self).done,
    {
        if self.failure.is_none() && self.done < self.steps.len() {
            self.done = self.done + 1;
            assert(self.completed() =~= old(self).completed().push(old(self).spec_current()->0));
        }
    }

    /// Records that the current step failed, which ends the start-up. Where
    /// no step is due nothing changes.
    pub fn fail(&mut self, detail: String)
        requires
            old(self).wf(),
        ensures
            final(self).wf(),
            final(self).steps == old(self).steps,
            final(self).done == old(self).done,
            final(self).spec_current() is None,
            match old(self).spec_current() {
                Some(step) => final(self).failure == Some(
                    (StartupError { category: step.spec_failure_category(), step, detail }),
                ),
                None => final(self).failure == old(self).failure,
            },
    {
        if self.failure.is_none() && self.done < self.steps.len() {
            let step = self.steps[self.done];
            self.failure = Some(StartupError { category: step.failure_category(), step, detail });
        }
    }

    /// Whether every step has been performed with success.
    pub fn is_finished(&self) -> (finished: bool)
        requires
            self.wf(),
        ensures
            finished == self.spec_finished(),
    {
        self.failure.is_none() && self.done == self.steps.len()
    }

    /// How the process ends: with success once every step is done, with a
    /// failure or an abort once a step has failed, and not yet otherwise.
    pub fn exit(&self) -> (exit: Option<Exit>)
        requires
            self.wf(),
        ensures
            exit == self.spec_exit(),
    {
        match &self.failure {
            Some(error) => Some(error.category.exit()),
            None => if self.done == self.steps.len() {
                Some(Exit::Success)
            } else {
                None
            },
        }
    }
}

} // verus!

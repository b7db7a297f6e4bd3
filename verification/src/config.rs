//! The settings that start-up decisions are made from: what the command line
//! gave, what the configuration file gave, and what this build and platform
//! can do. All of them are plain values, read once and never changed.

use vstd::prelude::*;
use vstd::string::StringExecFns;
use crate::net::IpAddress;
use crate::net::SocketAddress;
use crate::net::Transport;

verus! {

/// One zone of the configuration: its name and the file it is loaded from.
#[derive(Clone, Debug, PartialEq, Eq)]
pub struct ZoneDeclaration {
    pub name: String,
    pub file: String,
}

/// Where the TLS certificate and key are found, and the name the server
/// presents to its clients.
#[derive(Clone, Debug, PartialEq, Eq)]
pub struct TlsCertConfig {
    pub path: String,
    pub endpoint_name: Option<String>,
    pub private_key: Option<String>,
}

/// What the command line gave.
#[derive(Clone, Debug, PartialEq, Eq)]
pub struct CliOptions {
    pub validate: bool,
    pub workers: Option<usize>,
    pub quiet: bool,
    pub debug: bool,
    pub config: String,
    pub zonedir: Option<String>,
    pub port: Option<u16>,
    pub tls_port: Option<u16>,
    pub https_port: Option<u16>,
    pub quic_port: Option<u16>,
    pub prometheus_listen_addr: Option<SocketAddress>,
    pub disable_tcp: bool,
    pub disable_udp: bool,
    pub disable_tls: bool,
    pub disable_https: bool,
    pub disable_quic: bool,
    pub disable_prometheus: bool,
}

/// What the configuration file gave.
#[derive(Clone, Debug, PartialEq, Eq)]
pub struct ServerConfig {
    pub directory: String,
    pub zones: Vec<ZoneDeclaration>,
    pub listen_addrs_ipv4: Vec<u32>,
    pub listen_addrs_ipv6: Vec<u128>,
    pub listen_port: Option<u16>,
    pub tls_listen_port: Option<u16>,
    pub https_listen_port: Option<u16>,
    pub quic_listen_port: Option<u16>,
    pub prometheus_listen_addr: Option<SocketAddress>,
    pub disable_tcp: bool,
    pub disable_udp: bool,
    pub disable_tls: bool,
    pub disable_https: bool,
    pub disable_quic: bool,
    pub disable_prometheus: bool,
    pub tls_cert: Option<TlsCertConfig>,
    pub http_endpoint: Option<String>,
    pub tcp_request_timeout_secs: Option<u64>,
    pub user: Option<String>,
    pub group: Option<String>,
}

/// What this build and platform can do. A transport that is not available is
/// reported when its turn to register comes; it is no error.
#[derive(Clone, Copy, Debug, PartialEq, Eq, Structural)]
pub struct Capabilities {
    pub posix: bool,
    pub tls: bool,
    pub https: bool,
    pub quic: bool,
    pub metrics: bool,
}

/// How much the server logs.
#[derive(Clone, Copy, Debug, PartialEq, Eq, Structural)]
pub enum LogLevel {
    Error,
    Info,
    Debug,
}

/// The time a stream connection may take for one request, in seconds, where
/// the configuration names none.
pub const DEFAULT_REQUEST_TIMEOUT_SECS: u64 = 5;

/// Where the configuration is read from where the command line names no file.
pub open spec fn default_config_path() -> Seq<char> {
    "/etc/named.toml"@
}

/// The zone directory where the configuration names none.
pub open spec fn default_directory() -> Seq<char> {
    "/var/named"@
}

/// The path that DNS over HTTPS is served under where the configuration names none.
pub open spec fn default_http_endpoint() -> Seq<char> {
    "/dns-query"@
}

/// The account that a superuser process drops to where the configuration
/// names none: both its user and its group are called `nobody`.
pub open spec fn default_drop_target() -> Seq<char> {
    "nobody"@
}

/// Where the metrics are served where neither the command line nor the
/// configuration says: on the loopback address, port 9000.
pub open spec fn default_metrics_endpoint() -> SocketAddress {
    SocketAddress { address: IpAddress::V4(0x7f00_0001), port: 9000 }
}

/// Where the metrics are served: where the command line says, else where the
/// configuration says, else on the default endpoint.
pub open spec fn spec_metrics_endpoint(cli: &CliOptions, config: &ServerConfig) -> SocketAddress {
    match cli.prometheus_listen_addr {
        Some(endpoint) => endpoint,
        None => match config.prometheus_listen_addr {
            Some(endpoint) => endpoint,
            None => default_metrics_endpoint(),
        },
    }
}

/// Metrics are served only when neither the command line nor the
/// configuration disables them.
pub open spec fn spec_metrics_enabled(cli: &CliOptions, config: &ServerConfig) -> bool {
    !cli.disable_prometheus && !config.disable_prometheus
}

/// Quiet wins over debug; with neither the server logs at `Info`.
pub open spec fn spec_log_level(quiet: bool, debug: bool) -> LogLevel {
    if quiet {
        LogLevel::Error
    } else if debug {
        LogLevel::Debug
    } else {
        LogLevel::Info
    }
}

/// The text, or `fallback` where there is none.
pub open spec fn text_or(value: Option<String>, fallback: Seq<char>) -> Seq<char> {
    match value {
        Some(text) => text@,
        None => fallback,
    }
}

impl Capabilities {
    /// Every transport and the metrics, on a POSIX platform.
    pub fn full() -> (caps: Capabilities)
        ensures
            caps == (Capabilities {
                posix: true,
                tls: true,
                https: true,
                quic: true,
                metrics: true,
            }),
    {
        Capabilities { posix: true, tls: true, https: true, quic: true, metrics: true }
    }

    /// UDP and TCP are always available; the others as the build has them.
    pub open spec fn spec_supports(self, transport: Transport) -> bool {
        match transport {
            Transport::Udp => true,
            Transport::Tcp => true,
            Transport::Tls => self.tls,
            Transport::Https => self.https,
            Transport::Quic => self.quic,
        }
    }

    /// UDP and TCP are always available; the others as the build has them.
    pub fn supports(self, transport: Transport) -> (yes: bool)
        ensures
            yes == self.spec_supports(transport),
    {
        match transport {
            Transport::Udp => true,
            Transport::Tcp => true,
            Transport::Tls => self.tls,
            Transport::Https => self.https,
            Transport::Quic => self.quic,
        }
    }
}

impl CliOptions {
    /// The command line of a server started without arguments.
    pub fn new() -> (cli: CliOptions)
        ensures
            !cli.validate && !cli.quiet && !cli.debug,
            cli.workers is None,
            cli.config@ == default_config_path(),
            cli.zonedir is None,
            cli.port is None && cli.tls_port is None && cli.https_port is None && cli.quic_port
                is None,
            cli.prometheus_listen_addr is None,
            !cli.disable_tcp && !cli.disable_udp && !cli.disable_tls && !cli.disable_https
                && !cli.disable_quic && !cli.disable_prometheus,
    {
        CliOptions {
            validate: false,
            workers: None,
            quiet: false,
            debug: false,
            config: String::from_str("/etc/named.toml"),
            zonedir: None,
            port: None,
            tls_port: None,
            https_port: None,
            quic_port: None,
            prometheus_listen_addr: None,
            disable_tcp: false,
            disable_udp: false,
            disable_tls: false,
            disable_https: false,
            disable_quic: false,
            disable_prometheus: false,
        }
    }

    /// Whether these settings disable `transport`.
    pub open spec fn spec_disables(&self, transport: Transport) -> bool {
        match transport {
            Transport::Udp => self.disable_udp,
            Transport::Tcp => self.disable_tcp,
            Transport::Tls => self.disable_tls,
            Transport::Https => self.disable_https,
            Transport::Quic => self.disable_quic,
        }
    }

    /// Whether these settings disable `transport`.
    pub fn disables(&self, transport: Transport) -> (yes: bool)
        ensures
            yes == self.spec_disables(transport),
    {
        match transport {
            Transport::Udp => self.disable_udp,
            Transport::Tcp => self.disable_tcp,
            Transport::Tls => self.disable_tls,
            Transport::Https => self.disable_https,
            Transport::Quic => self.disable_quic,
        }
    }

    /// UDP and TCP share one port override; each other transport has its own.
    pub open spec fn spec_port_override(&self, transport: Transport) -> Option<u16> {
        match transport {
            Transport::Udp => self.port,
            Transport::Tcp => self.port,
            Transport::Tls => self.tls_port,
            Transport::Https => self.https_port,
            Transport::Quic => self.quic_port,
        }
    }

    /// UDP and TCP share one port override; each other transport has its own.
    pub fn port_override(&self, transport: Transport) -> (port: Option<u16>)
        ensures
            port == self.spec_port_override(transport),
    {
        match transport {
            Transport::Udp => self.port,
            Transport::Tcp => self.port,
            Transport::Tls => self.tls_port,
            Transport::Https => self.https_port,
            Transport::Quic => self.quic_port,
        }
    }

    /// A disable flag and a port override for the same transport exclude each
    /// other, as quiet and debug do.
    pub open spec fn spec_conflict_free(&self) -> bool {
        &&& !(self.quiet && self.debug)
        &&& !(self.disable_tls && self.tls_port is Some)
        &&& !(self.disable_https && self.https_port is Some)
        &&& !(self.disable_quic && self.quic_port is Some)
        &&& !(self.disable_prometheus && self.prometheus_listen_addr is Some)
    }

    /// A disable flag and a port override for the same transport exclude each
    /// other, as quiet and debug do.
    pub fn conflict_free(&self) -> (yes: bool)
        ensures
            yes == self.spec_conflict_free(),
    {
        !(self.quiet && self.debug) && !(self.disable_tls && self.tls_port.is_some()) && !(
        self.disable_https && self.https_port.is_some()) && !(self.disable_quic
            && self.quic_port.is_some()) && !(self.disable_prometheus
            && self.prometheus_listen_addr.is_some())
    }

    /// Quiet wins over debug; with neither the server logs at `Info`.
    pub fn log_level(&self) -> (level: LogLevel)
        ensures
            level == spec_log_level(self.quiet, self.debug),
    {
        if self.quiet {
            LogLevel::Error
        } else if self.debug {
            LogLevel::Debug
        } else {
            LogLevel::Info
        }
    }
}

impl ServerConfig {
    /// The configuration of a server whose file sets nothing: no zone, no
    /// address, every transport enabled on its default port, no certificate.
    pub fn new() -> (config: ServerConfig)
        ensures
            config.directory@ == default_directory(),
            config.zones@.len() == 0,
            config.listen_addrs_ipv4@.len() == 0,
            config.listen_addrs_ipv6@.len() == 0,
            config.listen_port is None && config.tls_listen_port is None
                && config.https_listen_port is None && config.quic_listen_port is None,
            config.prometheus_listen_addr is None,
            !config.disable_tcp && !config.disable_udp && !config.disable_tls
                && !config.disable_https && !config.disable_quic && !config.disable_prometheus,
            config.tls_cert is None,
            config.http_endpoint is None,
            config.tcp_request_timeout_secs is None,
            config.user is None,
            config.group is None,
    {
        ServerConfig {
            directory: String::from_str("/var/named"),
            zones: Vec::new(),
            listen_addrs_ipv4: Vec::new(),
            listen_addrs_ipv6: Vec::new(),
            listen_port: None,
            tls_listen_port: None,
            https_listen_port: None,
            quic_listen_port: None,
            prometheus_listen_addr: None,
            disable_tcp: false,
            disable_udp: false,
            disable_tls: false,
            disable_https: false,
            disable_quic: false,
            disable_prometheus: false,
            tls_cert: None,
            http_endpoint: None,
            tcp_request_timeout_secs: None,
            user: None,
            group: None,
        }
    }

    /// Whether these settings disable `transport`.
    pub open spec fn spec_disables(&self, transport: Transport) -> bool {
        match transport {
            Transport::Udp => self.disable_udp,
            Transport::Tcp => self.disable_tcp,
            Transport::Tls => self.disable_tls,
            Transport::Https => self.disable_https,
            Transport::Quic => self.disable_quic,
        }
    }

    /// Whether these settings disable `transport`.
    pub fn disables(&self, transport: Transport) -> (yes: bool)
        ensures
            yes == self.spec_disables(transport),
    {
        match transport {
            Transport::Udp => self.disable_udp,
            Transport::Tcp => self.disable_tcp,
            Transport::Tls => self.disable_tls,
            Transport::Https => self.disable_https,
            Transport::Quic => self.disable_quic,
        }
    }

    /// UDP and TCP share one configured port; each other transport has its own.
    pub open spec fn spec_configured_port(&self, transport: Transport) -> Option<u16> {
        match transport {
            Transport::Udp => self.listen_port,
            Transport::Tcp => self.listen_port,
            Transport::Tls => self.tls_listen_port,
            Transport::Https => self.https_listen_port,
            Transport::Quic => self.quic_listen_port,
        }
    }

    /// UDP and TCP share one configured port; each other transport has its own.
    pub fn configured_port(&self, transport: Transport) -> (port: Option<u16>)
        ensures
            port == self.spec_configured_port(transport),
    {
        match transport {
            Transport::Udp => self.listen_port,
            Transport::Tcp => self.listen_port,
            Transport::Tls => self.tls_listen_port,
            Transport::Https => self.https_listen_port,
            Transport::Quic => self.quic_listen_port,
        }
    }

    /// The time a stream connection may take for one request, in seconds.
    pub open spec fn spec_request_timeout_secs(&self) -> u64 {
        match self.tcp_request_timeout_secs {
            Some(secs) => secs,
            None => DEFAULT_REQUEST_TIMEOUT_SECS,
        }
    }

    /// The time a stream connection may take for one request, in seconds.
    pub fn request_timeout_secs(&self) -> (secs: u64)
        ensures
            secs == self.spec_request_timeout_secs(),
    {
        match self.tcp_request_timeout_secs {
            Some(secs) => secs,
            None => DEFAULT_REQUEST_TIMEOUT_SECS,
        }
    }

    /// The path that DNS over HTTPS is served under.
    pub fn http_endpoint(&self) -> (path: String)
        ensures
            path@ == text_or(self.http_endpoint, default_http_endpoint()),
    {
        match &self.http_endpoint {
            Some(path) => path.clone(),
            None => String::from_str("/dns-query"),
        }
    }

    /// The user that a superuser process drops to.
    pub fn drop_user(&self) -> (name: String)
        ensures
            name@ == text_or(self.user, default_drop_target()),
    {
        match &self.user {
            Some(name) => name.clone(),
            None => String::from_str("nobody"),
        }
    }

    /// The group that a superuser process drops to.
    pub fn drop_group(&self) -> (name: String)
        ensures
            name@ == text_or(self.group, default_drop_target()),
    {
        match &self.group {
            Some(name) => name.clone(),
            None => String::from_str("nobody"),
        }
    }

    /// Whether the configuration names an account to drop to.
    pub fn names_drop_target(&self) -> (yes: bool)
        ensures
            yes == (self.user is Some || self.group is Some),
    {
        self.user.is_some() || self.group.is_some()
    }
}

/// Whether metrics are served under these settings.
pub fn metrics_enabled(cli: &CliOptions, config: &ServerConfig) -> (enabled: bool)
    ensures
        enabled == spec_metrics_enabled(cli, config),
{
    !cli.disable_prometheus && !config.disable_prometheus
}

/// Where metrics are served under these settings.
pub fn metrics_endpoint(cli: &CliOptions, config: &ServerConfig) -> (endpoint: SocketAddress)
    ensures
        endpoint == spec_metrics_endpoint(cli, config),
{
    match cli.prometheus_listen_addr {
        Some(endpoint) => endpoint,
        None => match config.prometheus_listen_addr {
            Some(endpoint) => endpoint,
            None => SocketAddress { address: IpAddress::V4(0x7f00_0001), port: 9000 },
        },
    }
}

/// The directory that zone files and relative certificate paths are resolved
/// against: the command line's, else the configuration's.
pub fn zone_directory(cli: &CliOptions, config: &ServerConfig) -> (dir: String)
    ensures
        dir@ == text_or(cli.zonedir, config.directory@),
{
    match &cli.zonedir {
        Some(dir) => dir.clone(),
        None => config.directory.clone(),
    }
}

} // verus!

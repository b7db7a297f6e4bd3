use dns_bootstrap::config::Capabilities;
use dns_bootstrap::config::CliOptions;
use dns_bootstrap::config::LogLevel;
use dns_bootstrap::config::ServerConfig;
use dns_bootstrap::config::TlsCertConfig;
use dns_bootstrap::config::ZoneDeclaration;
use dns_bootstrap::config::metrics_enabled;
use dns_bootstrap::config::metrics_endpoint;
use dns_bootstrap::config::zone_directory;
use dns_bootstrap::net::IpAddress;
use dns_bootstrap::net::SocketAddress;
use dns_bootstrap::net::Transport;
use dns_bootstrap::startup::plan_startup;
use dns_bootstrap::startup::register_https;
use dns_bootstrap::startup::register_quic;
use dns_bootstrap::startup::register_tcp;
use dns_bootstrap::startup::register_tls;
use dns_bootstrap::startup::register_transport;
use dns_bootstrap::startup::register_udp;
use dns_bootstrap::startup::transport_enabled;
use dns_bootstrap::startup::transport_port;
use dns_bootstrap::startup::ErrorCategory;
use dns_bootstrap::startup::Exit;
use dns_bootstrap::startup::Notice;
use dns_bootstrap::startup::Startup;
use dns_bootstrap::startup::StartupError;
use dns_bootstrap::startup::StartupStep;
use dns_bootstrap::zones::build;

fn caps() -> Capabilities {
    Capabilities {
        metrics: false,
        ..Capabilities::full()
    }
}

fn listen(transport: Transport, address: IpAddress, port: u16) -> StartupStep {
    StartupStep::Listen {
        transport,
        address,
        port,
    }
}

fn certificate() -> TlsCertConfig {
    TlsCertConfig {
        path: "cert.pem".to_string(),
        endpoint_name: Some("ns.example.com".to_string()),
        private_key: Some("key.pem".to_string()),
    }
}

fn count_listens(steps: &[StartupStep], wanted: Transport) -> usize {
    steps
        .iter()
        .filter(|step| matches!(step, StartupStep::Listen { transport, .. } if *transport == wanted))
        .count()
}

#[test]
fn udp_only_on_default_addresses() {
    let cli = CliOptions::new();
    let mut config = ServerConfig::new();
    config.disable_tcp = true;
    let steps = plan_startup(&cli, &config, caps());
    assert_eq!(
        steps,
        vec![
            StartupStep::RegisterSignal,
            StartupStep::BuildCatalog,
            listen(Transport::Udp, IpAddress::V4(0), 53),
            listen(Transport::Udp, IpAddress::V6(0), 53),
            StartupStep::Note(Notice::TransportDisabled(Transport::Tcp)),
            StartupStep::Note(Notice::CredentialMissing),
            StartupStep::DropPrivileges,
            StartupStep::SpawnShutdownTask,
            StartupStep::Serve,
        ]
    );
    assert_eq!(count_listens(&steps, Transport::Udp), 2);
    assert_eq!(count_listens(&steps, Transport::Tcp), 0);
}

#[test]
fn validation_stops_after_the_zones() {
    let mut cli = CliOptions::new();
    cli.validate = true;
    let mut config = ServerConfig::new();
    config.zones.push(ZoneDeclaration {
        name: "example.com".to_string(),
        file: "missing.zone".to_string(),
    });
    let mut startup = Startup::new(&cli, &config, caps());
    assert_eq!(
        startup.steps,
        vec![
            StartupStep::RegisterSignal,
            StartupStep::BuildCatalog,
            StartupStep::Note(Notice::Validated),
        ]
    );
    startup.succeed();
    assert_eq!(startup.current(), Some(StartupStep::BuildCatalog));
    let built = build::<u32>(
        config.zones.clone(),
        vec![Err("No such file or directory".to_string())],
    );
    let error = built.unwrap_err();
    assert_eq!(error.zone, "example.com");
    assert_eq!(
        error.message(),
        "could not load zone example.com: No such file or directory"
    );
    startup.fail(error.message());
    assert_eq!(startup.current(), None);
    assert_eq!(startup.exit(), Some(Exit::Failure));
    assert_eq!(Exit::Failure.status(), Some(1));
    assert_eq!(
        startup.failure,
        Some(StartupError {
            category: ErrorCategory::ZoneLoad,
            step: StartupStep::BuildCatalog,
            detail: "could not load zone example.com: No such file or directory".to_string(),
        })
    );
    assert_eq!(count_listens(&startup.steps, Transport::Udp), 0);
    assert_eq!(count_listens(&startup.steps, Transport::Tcp), 0);
}

#[test]
fn validation_success_exits_with_zero() {
    let mut cli = CliOptions::new();
    cli.validate = true;
    let config = ServerConfig::new();
    let mut startup = Startup::new(&cli, &config, caps());
    assert_eq!(startup.exit(), None);
    startup.succeed();
    startup.succeed();
    assert_eq!(
        startup.current(),
        Some(StartupStep::Note(Notice::Validated))
    );
    startup.succeed();
    assert!(startup.is_finished());
    assert_eq!(startup.current(), None);
    assert_eq!(startup.exit(), Some(Exit::Success));
    assert_eq!(Exit::Success.status(), Some(0));
}

#[test]
fn tls_without_addresses_warns_and_registers_nothing() {
    assert_eq!(
        register_tls(&vec![], 853),
        vec![StartupStep::Note(Notice::NoAddresses(Transport::Tls))]
    );
    assert_eq!(
        register_https(&vec![], 443),
        vec![StartupStep::Note(Notice::NoAddresses(Transport::Https))]
    );
    assert_eq!(
        register_quic(&vec![], 853),
        vec![StartupStep::Note(Notice::NoAddresses(Transport::Quic))]
    );
}

#[test]
fn plain_transports_without_addresses_register_nothing_silently() {
    assert_eq!(register_udp(&vec![], 53), vec![]);
    assert_eq!(register_tcp(&vec![], 53), vec![]);
}

#[test]
fn each_address_is_registered_once_in_order() {
    let addresses = vec![IpAddress::V4(1), IpAddress::V6(2), IpAddress::V4(1)];
    assert_eq!(
        register_tcp(&addresses, 5353),
        vec![
            listen(Transport::Tcp, IpAddress::V4(1), 5353),
            listen(Transport::Tcp, IpAddress::V6(2), 5353),
            listen(Transport::Tcp, IpAddress::V4(1), 5353),
        ]
    );
    assert_eq!(
        register_quic(&addresses, 853),
        vec![
            listen(Transport::Quic, IpAddress::V4(1), 853),
            listen(Transport::Quic, IpAddress::V6(2), 853),
            listen(Transport::Quic, IpAddress::V4(1), 853),
        ]
    );
}

#[test]
fn either_side_disables_a_transport() {
    let mut cli = CliOptions::new();
    let mut config = ServerConfig::new();
    assert!(transport_enabled(&cli, &config, Transport::Udp));
    cli.disable_udp = true;
    assert!(!transport_enabled(&cli, &config, Transport::Udp));
    cli.disable_udp = false;
    config.disable_udp = true;
    assert!(!transport_enabled(&cli, &config, Transport::Udp));
    cli.disable_udp = true;
    assert!(!transport_enabled(&cli, &config, Transport::Udp));
    assert!(transport_enabled(&cli, &config, Transport::Tcp));
    assert_eq!(
        register_transport(&cli, &config, caps(), Transport::Udp),
        vec![StartupStep::Note(Notice::TransportDisabled(Transport::Udp))]
    );
}

#[test]
fn ports_per_transport() {
    let mut cli = CliOptions::new();
    let mut config = ServerConfig::new();
    config.listen_port = Some(1053);
    config.tls_listen_port = Some(1853);
    cli.https_port = Some(8443);
    assert_eq!(transport_port(&cli, &config, Transport::Udp), 1053);
    assert_eq!(transport_port(&cli, &config, Transport::Tcp), 1053);
    assert_eq!(transport_port(&cli, &config, Transport::Tls), 1853);
    assert_eq!(transport_port(&cli, &config, Transport::Https), 8443);
    assert_eq!(transport_port(&cli, &config, Transport::Quic), 853);
    cli.port = Some(5300);
    assert_eq!(transport_port(&cli, &config, Transport::Udp), 5300);
    assert_eq!(transport_port(&cli, &config, Transport::Tcp), 5300);
    assert_eq!(transport_port(&cli, &config, Transport::Tls), 1853);
}

#[test]
fn all_transports_in_order_with_one_credential_load() {
    let cli = CliOptions::new();
    let mut config = ServerConfig::new();
    config.listen_addrs_ipv4.push(0x7f00_0001);
    config.tls_cert = Some(certificate());
    let steps = plan_startup(&cli, &config, caps());
    let lo = IpAddress::V4(0x7f00_0001);
    assert_eq!(
        steps,
        vec![
            StartupStep::RegisterSignal,
            StartupStep::BuildCatalog,
            listen(Transport::Udp, lo, 53),
            listen(Transport::Tcp, lo, 53),
            StartupStep::LoadCredential,
            listen(Transport::Tls, lo, 853),
            listen(Transport::Https, lo, 443),
            listen(Transport::Quic, lo, 853),
            StartupStep::DropPrivileges,
            StartupStep::SpawnShutdownTask,
            StartupStep::Serve,
        ]
    );
}

#[test]
fn credential_is_not_loaded_when_no_secure_transport_binds() {
    let mut cli = CliOptions::new();
    cli.disable_tls = true;
    cli.disable_https = true;
    let mut config = ServerConfig::new();
    config.disable_quic = true;
    config.tls_cert = Some(certificate());
    let steps = plan_startup(&cli, &config, caps());
    assert!(!steps.contains(&StartupStep::LoadCredential));
    assert_eq!(
        &steps[6..9],
        &[
            StartupStep::Note(Notice::TransportDisabled(Transport::Tls)),
            StartupStep::Note(Notice::TransportDisabled(Transport::Https)),
            StartupStep::Note(Notice::TransportDisabled(Transport::Quic)),
        ]
    );
}

#[test]
fn unavailable_transport_is_reported_not_bound() {
    let cli = CliOptions::new();
    let mut config = ServerConfig::new();
    config.tls_cert = Some(certificate());
    let caps = Capabilities {
        posix: false,
        tls: true,
        https: false,
        quic: false,
        metrics: false,
    };
    let steps = plan_startup(&cli, &config, caps);
    assert_eq!(
        steps,
        vec![
            StartupStep::BuildCatalog,
            listen(Transport::Udp, IpAddress::V4(0), 53),
            listen(Transport::Udp, IpAddress::V6(0), 53),
            listen(Transport::Tcp, IpAddress::V4(0), 53),
            listen(Transport::Tcp, IpAddress::V6(0), 53),
            StartupStep::LoadCredential,
            listen(Transport::Tls, IpAddress::V4(0), 853),
            listen(Transport::Tls, IpAddress::V6(0), 853),
            StartupStep::Note(Notice::TransportUnavailable(Transport::Https)),
            StartupStep::Note(Notice::TransportUnavailable(Transport::Quic)),
            StartupStep::DropPrivileges,
            StartupStep::Serve,
        ]
    );
    assert!(caps.supports(Transport::Udp));
    assert!(caps.supports(Transport::Tls));
    assert!(!caps.supports(Transport::Quic));
}

#[test]
fn failed_bind_ends_the_startup() {
    let cli = CliOptions::new();
    let config = ServerConfig::new();
    let mut startup = Startup::new(&cli, &config, caps());
    startup.succeed();
    startup.succeed();
    startup.succeed();
    let due = startup.current();
    assert_eq!(due, Some(listen(Transport::Udp, IpAddress::V6(0), 53)));
    startup.fail("Address already in use".to_string());
    assert_eq!(startup.current(), None);
    assert!(!startup.is_finished());
    let done = startup.done;
    startup.succeed();
    startup.fail("again".to_string());
    assert_eq!(startup.done, done);
    assert_eq!(
        startup.failure,
        Some(StartupError {
            category: ErrorCategory::Bind,
            step: listen(Transport::Udp, IpAddress::V6(0), 53),
            detail: "Address already in use".to_string(),
        })
    );
    assert_eq!(startup.exit(), Some(Exit::Failure));
}

#[test]
fn fault_while_serving_aborts() {
    let mut cli = CliOptions::new();
    cli.disable_udp = true;
    cli.disable_tcp = true;
    let config = ServerConfig::new();
    let mut startup = Startup::new(&cli, &config, caps());
    while startup.current() != Some(StartupStep::Serve) {
        startup.succeed();
    }
    startup.fail("engine fault".to_string());
    assert_eq!(startup.exit(), Some(Exit::Abort));
    assert_eq!(Exit::Abort.status(), None);
    assert_eq!(
        startup.failure.as_ref().map(|failure| failure.category),
        Some(ErrorCategory::Runtime)
    );
}

#[test]
fn normal_shutdown_exits_with_zero() {
    let cli = CliOptions::new();
    let config = ServerConfig::new();
    let mut startup = Startup::new(&cli, &config, caps());
    let total = startup.steps.len();
    for _ in 0..total {
        assert!(startup.current().is_some());
        startup.succeed();
    }
    assert!(startup.is_finished());
    assert_eq!(startup.exit(), Some(Exit::Success));
}

#[test]
fn failure_categories() {
    assert_eq!(
        StartupStep::RegisterSignal.failure_category(),
        ErrorCategory::Signal
    );
    assert_eq!(
        StartupStep::BuildCatalog.failure_category(),
        ErrorCategory::ZoneLoad
    );
    assert_eq!(
        StartupStep::LoadCredential.failure_category(),
        ErrorCategory::CertLoad
    );
    assert_eq!(
        listen(Transport::Tcp, IpAddress::V4(0), 53).failure_category(),
        ErrorCategory::Bind
    );
    assert_eq!(
        StartupStep::DropPrivileges.failure_category(),
        ErrorCategory::Drop
    );
    assert_eq!(StartupStep::Serve.failure_category(), ErrorCategory::Runtime);
    assert_eq!(
        StartupStep::Note(Notice::Validated).failure_category(),
        ErrorCategory::Config
    );
    assert_eq!(
        StartupStep::SpawnShutdownTask.failure_category(),
        ErrorCategory::Signal
    );
    assert_eq!(ErrorCategory::Runtime.exit(), Exit::Abort);
    assert_eq!(ErrorCategory::Config.exit(), Exit::Failure);
    assert_eq!(ErrorCategory::Drop.exit(), Exit::Failure);
}

#[test]
fn log_level_from_flags() {
    let mut cli = CliOptions::new();
    assert_eq!(cli.log_level(), LogLevel::Info);
    cli.debug = true;
    assert_eq!(cli.log_level(), LogLevel::Debug);
    cli.quiet = true;
    assert_eq!(cli.log_level(), LogLevel::Error);
    assert!(!cli.conflict_free());
    cli.debug = false;
    assert!(cli.conflict_free());
    cli.disable_tls = true;
    cli.tls_port = Some(853);
    assert!(!cli.conflict_free());
}

#[test]
fn defaults_of_the_settings() {
    let cli = CliOptions::new();
    assert_eq!(cli.config, "/etc/named.toml");
    let config = ServerConfig::new();
    assert_eq!(config.directory, "/var/named");
    assert_eq!(config.drop_user(), "nobody");
    assert_eq!(config.drop_group(), "nobody");
    assert!(!config.names_drop_target());
    assert_eq!(config.http_endpoint(), "/dns-query");
    assert_eq!(config.request_timeout_secs(), 5);
    assert_eq!(zone_directory(&cli, &config), "/var/named");
}

#[test]
fn command_line_zone_directory_wins() {
    let mut cli = CliOptions::new();
    cli.zonedir = Some("/srv/zones".to_string());
    let mut config = ServerConfig::new();
    config.directory = "/etc/zones".to_string();
    config.user = Some("named".to_string());
    assert_eq!(zone_directory(&cli, &config), "/srv/zones");
    assert_eq!(config.drop_user(), "named");
    assert_eq!(config.drop_group(), "nobody");
    assert!(config.names_drop_target());
}

#[test]
fn notices_in_words() {
    assert_eq!(
        Notice::Validated.message(),
        "configuration files are validated"
    );
    assert_eq!(
        Notice::TransportDisabled(Transport::Udp).message(),
        "UDP protocol is disabled"
    );
    assert_eq!(
        Notice::TransportDisabled(Transport::Https).message(),
        "HTTPS protocol is disabled"
    );
    assert_eq!(
        Notice::TransportUnavailable(Transport::Quic).message(),
        "QUIC protocol is not available in this build"
    );
    assert_eq!(
        Notice::CredentialMissing.message(),
        "TLS certificates are not provided; TLS related protocols (TLS, HTTPS and QUIC) are disabled"
    );
    assert_eq!(
        Notice::NoAddresses(Transport::Tls).message(),
        "a tls certificate was specified, but no TLS addresses configured to listen on"
    );
    assert!(Notice::NoAddresses(Transport::Tls).is_warning());
    assert!(!Notice::Validated.is_warning());
    assert!(!Notice::TransportDisabled(Transport::Tcp).is_warning());
    assert!(!Notice::CredentialMissing.is_warning());
}

#[test]
fn privileges_drop_after_every_bind() {
    let cli = CliOptions::new();
    let mut config = ServerConfig::new();
    config.tls_cert = Some(certificate());
    let steps = plan_startup(&cli, &config, caps());
    let drop = steps
        .iter()
        .position(|step| *step == StartupStep::DropPrivileges)
        .unwrap();
    let last_listen = steps
        .iter()
        .rposition(|step| matches!(step, StartupStep::Listen { .. }))
        .unwrap();
    let spawn = steps
        .iter()
        .position(|step| *step == StartupStep::SpawnShutdownTask)
        .unwrap();
    let serve = steps
        .iter()
        .position(|step| *step == StartupStep::Serve)
        .unwrap();
    assert!(last_listen < drop);
    assert!(drop < spawn);
    assert!(spawn < serve);
    assert_eq!(serve, steps.len() - 1);
    assert_eq!(count_listens(&steps, Transport::Udp), 2);
    assert_eq!(count_listens(&steps, Transport::Tcp), 2);
    assert_eq!(count_listens(&steps, Transport::Tls), 2);
    assert_eq!(count_listens(&steps, Transport::Https), 2);
    assert_eq!(count_listens(&steps, Transport::Quic), 2);
}

#[test]
fn metrics_start_before_everything_else() {
    let cli = CliOptions::new();
    let config = ServerConfig::new();
    let steps = plan_startup(&cli, &config, Capabilities::full());
    assert_eq!(
        steps[0],
        StartupStep::StartMetrics {
            endpoint: SocketAddress {
                address: IpAddress::V4(0x7f00_0001),
                port: 9000,
            },
        }
    );
    assert_eq!(steps[1], StartupStep::RegisterSignal);
    assert_eq!(steps[2], StartupStep::BuildCatalog);
    assert_eq!(steps[0].failure_category(), ErrorCategory::Metrics);
    assert_eq!(ErrorCategory::Metrics.exit(), Exit::Failure);
}

#[test]
fn metrics_endpoint_from_command_line_then_configuration() {
    let mut cli = CliOptions::new();
    let mut config = ServerConfig::new();
    let configured = SocketAddress {
        address: IpAddress::V4(0),
        port: 9100,
    };
    let overridden = SocketAddress {
        address: IpAddress::V6(1),
        port: 9200,
    };
    assert!(metrics_enabled(&cli, &config));
    config.prometheus_listen_addr = Some(configured);
    assert_eq!(metrics_endpoint(&cli, &config), configured);
    cli.prometheus_listen_addr = Some(overridden);
    assert_eq!(metrics_endpoint(&cli, &config), overridden);
    let steps = plan_startup(&cli, &config, Capabilities::full());
    assert_eq!(
        steps[0],
        StartupStep::StartMetrics {
            endpoint: overridden
        }
    );
}

#[test]
fn validating_run_starts_no_metrics_and_binds_nothing() {
    let mut cli = CliOptions::new();
    cli.validate = true;
    let mut config = ServerConfig::new();
    config.tls_cert = Some(certificate());
    config.listen_addrs_ipv4.push(0x7f00_0001);
    let steps = plan_startup(&cli, &config, Capabilities::full());
    assert_eq!(
        steps,
        vec![
            StartupStep::RegisterSignal,
            StartupStep::BuildCatalog,
            StartupStep::Note(Notice::Validated),
        ]
    );
    cli.prometheus_listen_addr = Some(SocketAddress {
        address: IpAddress::V4(0),
        port: 9100,
    });
    assert_eq!(plan_startup(&cli, &config, Capabilities::full()), steps);
    let unix_less = Capabilities {
        posix: false,
        ..Capabilities::full()
    };
    assert_eq!(
        plan_startup(&cli, &config, unix_less),
        vec![
            StartupStep::BuildCatalog,
            StartupStep::Note(Notice::Validated),
        ]
    );
}

#[test]
fn failed_zone_in_a_validating_run_opens_no_socket() {
    let mut cli = CliOptions::new();
    cli.validate = true;
    let mut config = ServerConfig::new();
    config.zones.push(ZoneDeclaration {
        name: "example.com".to_string(),
        file: "missing.zone".to_string(),
    });
    let mut startup = Startup::new(&cli, &config, Capabilities::full());
    let mut performed = Vec::new();
    while let Some(step) = startup.current() {
        performed.push(step);
        if step == StartupStep::BuildCatalog {
            startup.fail("could not load zone example.com: No such file or directory".to_string());
        } else {
            startup.succeed();
        }
    }
    assert_eq!(
        performed,
        vec![StartupStep::RegisterSignal, StartupStep::BuildCatalog]
    );
    assert_eq!(startup.exit(), Some(Exit::Failure));
    assert_eq!(
        startup.failure.as_ref().map(|failure| failure.category),
        Some(ErrorCategory::ZoneLoad)
    );
}

#[test]
fn either_side_disables_the_metrics() {
    let mut cli = CliOptions::new();
    let mut config = ServerConfig::new();
    config.disable_prometheus = true;
    assert!(!metrics_enabled(&cli, &config));
    let steps = plan_startup(&cli, &config, Capabilities::full());
    assert_eq!(steps[0], StartupStep::Note(Notice::MetricsDisabled));
    assert_eq!(
        Notice::MetricsDisabled.message(),
        "Prometheus metrics are disabled"
    );
    config.disable_prometheus = false;
    cli.disable_prometheus = true;
    assert!(!metrics_enabled(&cli, &config));
    cli.prometheus_listen_addr = Some(SocketAddress {
        address: IpAddress::V4(0),
        port: 1,
    });
    assert!(!cli.conflict_free());
}

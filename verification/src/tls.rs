//! Where the TLS credential is read from, and what each listener is
//! registered with.
//!
//! Relative paths are resolved against the zone directory, not against the
//! directory the process happens to run in. The credential is loaded once
//! and shared by every TLS, HTTPS and QUIC listener.

use vstd::prelude::*;
use vstd::string::StringExecFns;
use crate::config::default_http_endpoint;
use crate::config::text_or;
use crate::config::ServerConfig;
use crate::config::TlsCertConfig;
use crate::net::Transport;

verus! {

/// The files that hold the credential, as paths that can be opened.
#[derive(Clone, Debug, PartialEq, Eq)]
pub struct TlsFiles {
    pub certificate: String,
    pub private_key: Option<String>,
}

/// A credential that could not be loaded: the file at fault and why.
#[derive(Clone, Debug, PartialEq, Eq)]
pub struct CertLoadError {
    pub path: String,
    pub detail: String,
}

/// What a listener is registered with, besides its socket.
#[derive(Clone, Debug, PartialEq, Eq)]
pub struct ListenerSettings {
    /// The seconds a stream connection may take for one request.
    pub timeout_secs: Option<u64>,
    /// Whether the listener presents the shared credential.
    pub needs_credential: bool,
    /// The name that the server presents to its clients.
    pub endpoint_name: Option<String>,
    /// The path that DNS over HTTPS is served under.
    pub endpoint_path: Option<String>,
}

/// A path is absolute when it begins with a slash.
pub open spec fn is_absolute(path: Seq<char>) -> bool {
    path.len() > 0 && path[0] == '/'
}

/// `path` as seen from the directory `base`: an absolute path stands for
/// itself; a relative one follows `base`, with a slash between the two unless
/// `base` is empty or ends in one.
pub open spec fn resolved_path(base: Seq<char>, path: Seq<char>) -> Seq<char> {
    if is_absolute(path) || base.len() == 0 {
        path
    } else if base.last() == '/' {
        base + path
    } else {
        base + seq!['/'] + path
    }
}

/// The texts of an optional text.
pub open spec fn optional_text(text: Option<String>) -> Option<Seq<char>> {
    match text {
        Some(text) => Some(text@),
        None => None,
    }
}

/// Resolves `path` against the directory `base`.
pub fn resolve_path(base: &str, path: &str) -> (resolved: String)
    ensures
        resolved@ == resolved_path(base@, path@),
{
    let path_len = path.unicode_len();
    let base_len = base.unicode_len();
    if (path_len > 0 && path.get_char(0) == '/') || base_len == 0 {
        return String::from_str(path);
    }
    let mut resolved = String::from_str(base);
    if base.get_char(base_len - 1) != '/' {
        proof {
            reveal_strlit("/");
            assert("/"@ =~= seq!['/']);
        }
        resolved.append("/");
    }
    resolved.append(path);
    resolved
}

impl TlsCertConfig {
    /// The files of the credential, resolved against the zone directory.
    pub fn files(&self, zone_dir: &str) -> (files: TlsFiles)
        ensures
            files.certificate@ == resolved_path(zone_dir@, self.path@),
            match self.private_key {
                Some(key) => files.private_key is Some && files.private_key->0@ == resolved_path(
                    zone_dir@,
                    key@,
                ),
                None => files.private_key is None,
            },
    {
        let certificate = resolve_path(zone_dir, self.path.as_str());
        let private_key = match &self.private_key {
            Some(key) => Some(resolve_path(zone_dir, key.as_str())),
            None => None,
        };
        TlsFiles { certificate, private_key }
    }
}

impl TlsFiles {
    /// The file at fault where the credential could not be loaded, given
    /// which of the files can be read: the certificate where it cannot be
    /// read; else the private key, where one is configured and it cannot be
    /// read; else the certificate, for then the contents are at fault, and
    /// the certificate's are taken up first.
    pub open spec fn spec_offending_path(
        &self,
        certificate_readable: bool,
        key_readable: bool,
    ) -> Seq<char> {
        if certificate_readable && !key_readable && self.private_key is Some {
            self.private_key->0@
        } else {
            self.certificate@
        }
    }

    /// The error of a credential that could not be loaded: it names the file
    /// at fault and says what the loader said.
    pub fn load_error(&self, certificate_readable: bool, key_readable: bool, detail: String) -> (error:
        CertLoadError)
        ensures
            error.path@ == self.spec_offending_path(certificate_readable, key_readable),
            error.detail == detail,
    {
        let path = match &self.private_key {
            Some(key) => if certificate_readable && !key_readable {
                key.clone()
            } else {
                self.certificate.clone()
            },
            None => self.certificate.clone(),
        };
        CertLoadError { path, detail }
    }
}

impl CertLoadError {
    /// The error in words.
    pub open spec fn spec_message(&self) -> Seq<char> {
        "failed to load tls certificate files from "@ + self.path@ + ": "@ + self.detail@
    }

    /// The error in words.
    pub fn message(&self) -> (text: String)
        ensures
            text@ == self.spec_message(),
    {
        let mut text = String::from_str("failed to load tls certificate files from ");
        text.append(self.path.as_str());
        text.append(": ");
        text.append(self.detail.as_str());
        text
    }
}

/// The name that the configured certificate gives the server.
pub open spec fn configured_endpoint_name(config: &ServerConfig) -> Option<Seq<char>> {
    match config.tls_cert {
        Some(cert) => optional_text(cert.endpoint_name),
        None => None,
    }
}

fn endpoint_name(config: &ServerConfig) -> (name: Option<String>)
    ensures
        optional_text(name) == configured_endpoint_name(config),
{
    match &config.tls_cert {
        Some(cert) => match &cert.endpoint_name {
            Some(name) => Some(name.clone()),
            None => None,
        },
        None => None,
    }
}

/// What a listener of `transport` is registered with. A datagram socket for
/// plain DNS has no timeout; every other listener has the configured one.
/// TLS, HTTPS and QUIC present the credential; HTTPS and QUIC also the
/// endpoint name of the certificate; HTTPS alone the endpoint path.
pub fn listener_settings(config: &ServerConfig, transport: Transport) -> (settings: ListenerSettings)
    ensures
        settings.timeout_secs == if transport == Transport::Udp {
            None
        } else {
            Some(config.spec_request_timeout_secs())
        },
        settings.needs_credential == transport.spec_needs_credential(),
        optional_text(settings.endpoint_name) == if transport == Transport::Https || transport
            == Transport::Quic {
            configured_endpoint_name(config)
        } else {
            None
        },
        optional_text(settings.endpoint_path) == if transport == Transport::Https {
            Some(text_or(config.http_endpoint, default_http_endpoint()))
        } else {
            None
        },
{
    match transport {
        Transport::Udp => ListenerSettings {
            timeout_secs: None,
            needs_credential: false,
            endpoint_name: None,
            endpoint_path: None,
        },
        Transport::Tcp => ListenerSettings {
            timeout_secs: Some(config.request_timeout_secs()),
            needs_credential: false,
            endpoint_name: None,
            endpoint_path: None,
        },
        Transport::Tls => ListenerSettings {
            timeout_secs: Some(config.request_timeout_secs()),
            needs_credential: true,
            endpoint_name: None,
            endpoint_path: None,
        },
        Transport::Https => ListenerSettings {
            timeout_secs: Some(config.request_timeout_secs()),
            needs_credential: true,
            endpoint_name: endpoint_name(config),
            endpoint_path: Some(config.http_endpoint()),
        },
        Transport::Quic => ListenerSettings {
            timeout_secs: Some(config.request_timeout_secs()),
            needs_credential: true,
            endpoint_name: endpoint_name(config),
            endpoint_path: None,
        },
    }
}

} // verus!

//! A TLS-terminating HTTP/WebSocket gateway core: request dispatch, the
//! WebSocket-to-endpoint bridge, and the settings they are started from.

pub mod bridge;
pub mod config;
pub mod endpoint;
pub mod http;
pub mod server;
pub mod tls;
pub mod trace;

use crate::config::{Config, DEFAULT_PORT, TLS};
use crate::tls::{
    alpn_view, cert_source, material_from_pem, outcome_view, pem_material, self_signed_material,
    source_of, CertError, CertSource, TlsMaterial,
};
use vstd::prelude::*;

verus! {

/// A server and the settings it was made with.
pub struct Server {
    config: Config,
}

/// The settings of a server that is being put together.
pub struct ServerBuilder {
    config: Config,
}

/// How connections reach the HTTP layer.
#[derive(Clone, Copy, Debug, PartialEq, Eq, Structural)]
pub enum Transport {
    /// As they are accepted, without a handshake.
    Plain,
    /// Through a TLS handshake.
    Tls,
}

/// What a server listens on.
#[derive(Debug, PartialEq, Eq)]
pub struct Listener {
    /// The settings, with every default filled in.
    pub config: Config,
    pub port: u16,
    pub transport: Transport,
}

/// The transport that filled-in settings ask for: plain where TLS is
/// switched off, TLS otherwise.
pub open spec fn transport_of(config: Config) -> Transport {
    if config.tls == Some(TLS::Disabled) {
        Transport::Plain
    } else {
        Transport::Tls
    }
}

impl Default for ServerBuilder {
    fn default() -> (builder: Self)
        ensures
            builder.settings() == Config::empty(),
    {
        ServerBuilder::new()
    }
}

impl ServerBuilder {
    /// The settings collected so far.
    pub closed spec fn settings(self) -> Config {
        self.config
    }

    /// A builder over settings that say nothing.
    pub fn new() -> (builder: Self)
        ensures
            builder.settings() == Config::empty(),
    {
        ServerBuilder { config: Config { port: None, tls: None, http_content: None } }
    }

    /// A builder over the given settings.
    pub fn from_config(config: Config) -> (builder: Self)
        ensures
            builder.settings() == config,
    {
        ServerBuilder { config }
    }

    /// Sets the port to listen on.
    pub fn port(self, p: u16) -> (builder: Self)
        ensures
            builder.settings() == (Config { port: Some(p), ..self.settings() }),
    {
        let mut config = self.config;
        config.port = Some(p);
        ServerBuilder { config }
    }

    /// The server with the settings collected so far.
    pub fn build(self) -> (server: Server)
        ensures
            server.settings() == self.settings(),
    {
        Server { config: self.config }
    }
}

impl Server {
    /// The settings the server was made with.
    pub closed spec fn settings(self) -> Config {
        self.config
    }

    /// A builder over settings that say nothing.
    pub fn builder() -> (builder: ServerBuilder)
        ensures
            builder.settings() == Config::empty(),
    {
        ServerBuilder::new()
    }

    /// The server with the given settings.
    pub fn from_config(config: Config) -> (server: Self)
        ensures
            server.settings() == config,
    {
        ServerBuilder::from_config(config).build()
    }

    /// The settings the server was made with.
    pub fn config(&self) -> (config: &Config)
        ensures
            *config == self.settings(),
    {
        &self.config
    }

    /// The certificate material that the settings ask for. `cert_pem` and
    /// `key_pem` are the contents of the certificate and key files; they are
    /// read only where the settings name such files.
    pub fn load_certs(config: &Config, cert_pem: &[u8], key_pem: &[u8]) -> (outcome: Result<
        TlsMaterial,
        CertError,
    >)
        ensures
            match source_of(*config) {
                CertSource::Disabled => outcome matches Err(why) && why
                    == CertError::TlsDisabled,
                CertSource::Files => outcome_view(outcome) == pem_material(cert_pem@, key_pem@),
                CertSource::SelfSigned => match outcome {
                    Ok(material) => material@.cert_chain.len() == 1 && material@.alpn_protocols
                        == alpn_view(),
                    Err(why) => why == CertError::Generation,
                },
            },
    {
        match cert_source(config) {
            CertSource::Disabled => Err(CertError::TlsDisabled),
            CertSource::Files => material_from_pem(cert_pem, key_pem),
            CertSource::SelfSigned => self_signed_material(),
        }
    }

    /// What the server listens on: the settings with their defaults filled
    /// in, the port they name, and the transport they ask for.
    pub fn listener(self) -> (listener: Listener)
        ensures
            listener.config == self.settings().with_defaults(),
            Some(listener.port) == listener.config.port,
            listener.transport == transport_of(listener.config),
    {
        let config = self.config.populate_defaults();
        let port = match config.port {
            Some(p) => p,
            None => DEFAULT_PORT,
        };
        let transport = match &config.tls {
            Some(TLS::Disabled) => Transport::Plain,
            _ => Transport::Tls,
        };
        Listener { config, port, transport }
    }
}

} // verus!

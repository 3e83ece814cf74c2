//! Gateway settings and default filling.

use std::path::PathBuf;
use vstd::prelude::*;

verus! {

/// `std::path::PathBuf`, carried through the settings as an opaque value.
#[verifier::external_type_specification]
#[verifier::external_body]
pub struct ExPathBuf(PathBuf);

/// The port that is served when none is configured.
pub const DEFAULT_PORT: u16 = 8443;

/// How the listening socket is secured.
#[derive(Debug, PartialEq, Eq)]
pub enum TLS {
    Disabled,
    SelfSigned,
    Certificate { cert_path: PathBuf, private_key_path: PathBuf },
}

/// Where static content is taken from.
#[derive(Debug, PartialEq, Eq)]
pub enum HttpContent {
    Embedded,
    Path(PathBuf),
}

/// Settings as read from the outside; every field may be absent.
#[derive(Debug, PartialEq, Eq)]
pub struct Config {
    pub port: Option<u16>,
    pub tls: Option<TLS>,
    pub http_content: Option<HttpContent>,
}

/// Why the settings could not be put together.
#[derive(Clone, Copy, Debug, PartialEq, Eq, Structural)]
pub enum ConfigError {
    /// Of the certificate and the private key, only one was given.
    CertWithoutKey,
}

impl Default for Config {
    fn default() -> (config: Config)
        ensures
            config == Config::empty(),
    {
        Config { port: None, tls: None, http_content: None }
    }
}

impl Config {
    /// The settings that say nothing.
    pub open spec fn empty() -> Config {
        Config { port: None, tls: None, http_content: None }
    }

    /// The settings with what was given on top of them: a port that was given
    /// replaces the port, a certificate and a private key that were given
    /// together replace the TLS mode, and one of the two without the other is
    /// an error.
    pub open spec fn overridden(
        self,
        port: Option<u16>,
        cert: Option<PathBuf>,
        private_key: Option<PathBuf>,
    ) -> Result<Config, ConfigError> {
        let port = if port is Some {
            port
        } else {
            self.port
        };
        match (cert, private_key) {
            (Some(cert_path), Some(private_key_path)) => Ok(
                Config {
                    port,
                    tls: Some(TLS::Certificate { cert_path, private_key_path }),
                    http_content: self.http_content,
                },
            ),
            (None, None) => Ok(Config { port, tls: self.tls, http_content: self.http_content }),
            _ => Err(ConfigError::CertWithoutKey),
        }
    }

    /// Puts what was given on the command line on top of the settings.
    pub fn with_overrides(
        self,
        port: Option<u16>,
        cert: Option<PathBuf>,
        private_key: Option<PathBuf>,
    ) -> (merged: Result<Config, ConfigError>)
        ensures
            merged == self.overridden(port, cert, private_key),
    {
        let port = match port {
            Some(p) => Some(p),
            None => self.port,
        };
        match (cert, private_key) {
            (Some(cert_path), Some(private_key_path)) => Ok(
                Config {
                    port,
                    tls: Some(TLS::Certificate { cert_path, private_key_path }),
                    http_content: self.http_content,
                },
            ),
            (None, None) => Ok(Config { port, tls: self.tls, http_content: self.http_content }),
            _ => Err(ConfigError::CertWithoutKey),
        }
    }

    /// The settings after default filling: a present field is kept, an absent
    /// one becomes self-signed TLS, port 8443 or embedded content.
    pub open spec fn with_defaults(self) -> Config {
        Config {
            port: Some(
                match self.port {
                    Some(p) => p,
                    None => DEFAULT_PORT,
                },
            ),
            tls: Some(
                match self.tls {
                    Some(t) => t,
                    None => TLS::SelfSigned,
                },
            ),
            http_content: Some(
                match self.http_content {
                    Some(c) => c,
                    None => HttpContent::Embedded,
                },
            ),
        }
    }

    /// Whether no field is absent.
    pub open spec fn is_complete(self) -> bool {
        self.port is Some && self.tls is Some && self.http_content is Some
    }

    /// Fills in what is absent: self-signed TLS, port 8443, embedded content.
    pub fn populate_defaults(self) -> (filled: Config)
        ensures
            filled == self.with_defaults(),
            filled.is_complete(),
    {
        let tls = match self.tls {
            Some(t) => t,
            None => TLS::SelfSigned,
        };
        let port = match self.port {
            Some(p) => p,
            None => DEFAULT_PORT,
        };
        let http_content = match self.http_content {
            Some(c) => c,
            None => HttpContent::Embedded,
        };
        Config { port: Some(port), tls: Some(tls), http_content: Some(http_content) }
    }
}

/// Default filling changes nothing in settings that it has filled before.
pub proof fn law_defaults_idempotent(config: Config)
    ensures
        config.with_defaults().with_defaults() == config.with_defaults(),
        config.is_complete() ==> config.with_defaults() == config,
{
}

} // verus!

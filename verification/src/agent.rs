//! Configuration of the device agent.

use crate::ids::ids::DeploymentToken;
use std::path::PathBuf;
use vstd::prelude::*;

verus! {

/// `std::path::PathBuf`: a path in the file system. Nothing is known of a
/// value but that it can be handed on.
#[verifier::external_type_specification]
#[verifier::external_body]
pub struct ExPathBuf(std::path::PathBuf);

/// Agent configuration.
pub struct Config {
    /// URL of the Nexigon Hub server.
    pub hub_url: String,
    /// Deployment token.
    pub token: DeploymentToken,
    /// Fingerprint script.
    pub fingerprint_script: PathBuf,
    /// Path to the device certificate.
    pub ssl_cert: Option<PathBuf>,
    /// Path to the device private key.
    pub ssl_key: Option<PathBuf>,
    /// Disable TLS.
    pub dangerous_disable_tls: Option<bool>,
}

impl Config {
    /// Creates a new [`Config`]. What is optional is left unset.
    pub fn new(
        hub_url: String,
        token: DeploymentToken,
        fingerprint_script: PathBuf,
    ) -> (config: Self)
        ensures
            config == (Config {
                hub_url,
                token,
                fingerprint_script,
                ssl_cert: None,
                ssl_key: None,
                dangerous_disable_tls: None,
            }),
    {
        Self {
            hub_url,
            token,
            fingerprint_script,
            ssl_cert: None,
            ssl_key: None,
            dangerous_disable_tls: None,
        }
    }

    /// Sets the value of `hub_url`.
    pub fn set_hub_url(&mut self, hub_url: String) -> (config: &mut Self)
        ensures
            *config == (Config { hub_url, ..*old(self) }),
            *final(self) == *final(config),
    {
        self.hub_url = hub_url;
        self
    }

    /// Sets the value of `hub_url`.
    pub fn with_hub_url(self, hub_url: String) -> (config: Self)
        ensures
            config == (Config { hub_url, ..self }),
    {
        let mut config = self;
        config.hub_url = hub_url;
        config
    }

    /// Sets the value of `token`.
    pub fn set_token(&mut self, token: DeploymentToken) -> (config: &mut Self)
        ensures
            *config == (Config { token, ..*old(self) }),
            *final(self) == *final(config),
    {
        self.token = token;
        self
    }

    /// Sets the value of `token`.
    pub fn with_token(self, token: DeploymentToken) -> (config: Self)
        ensures
            config == (Config { token, ..self }),
    {
        let mut config = self;
        config.token = token;
        config
    }

    /// Sets the value of `fingerprint_script`.
    pub fn set_fingerprint_script(&mut self, fingerprint_script: PathBuf) -> (config: &mut Self)
        ensures
            *config == (Config { fingerprint_script, ..*old(self) }),
            *final(self) == *final(config),
    {
        self.fingerprint_script = fingerprint_script;
        self
    }

    /// Sets the value of `fingerprint_script`.
    pub fn with_fingerprint_script(self, fingerprint_script: PathBuf) -> (config: Self)
        ensures
            config == (Config { fingerprint_script, ..self }),
    {
        let mut config = self;
        config.fingerprint_script = fingerprint_script;
        config
    }

    /// Sets the value of `ssl_cert`.
    pub fn set_ssl_cert(&mut self, ssl_cert: Option<PathBuf>) -> (config: &mut Self)
        ensures
            *config == (Config { ssl_cert, ..*old(self) }),
            *final(self) == *final(config),
    {
        self.ssl_cert = ssl_cert;
        self
    }

    /// Sets the value of `ssl_cert`.
    pub fn with_ssl_cert(self, ssl_cert: Option<PathBuf>) -> (config: Self)
        ensures
            config == (Config { ssl_cert, ..self }),
    {
        let mut config = self;
        config.ssl_cert = ssl_cert;
        config
    }

    /// Sets the value of `ssl_key`.
    pub fn set_ssl_key(&mut self, ssl_key: Option<PathBuf>) -> (config: &mut Self)
        ensures
            *config == (Config { ssl_key, ..*old(self) }),
            *final(self) == *final(config),
    {
        self.ssl_key = ssl_key;
        self
    }

    /// Sets the value of `ssl_key`.
    pub fn with_ssl_key(self, ssl_key: Option<PathBuf>) -> (config: Self)
        ensures
            config == (Config { ssl_key, ..self }),
    {
        let mut config = self;
        config.ssl_key = ssl_key;
        config
    }

    /// Sets the value of `dangerous_disable_tls`.
    pub fn set_dangerous_disable_tls(
        &mut self,
        dangerous_disable_tls: Option<bool>,
    ) -> (config: &mut Self)
        ensures
            *config == (Config { dangerous_disable_tls, ..*old(self) }),
            *final(self) == *final(config),
    {
        self.dangerous_disable_tls = dangerous_disable_tls;
        self
    }

    /// Sets the value of `dangerous_disable_tls`.
    pub fn with_dangerous_disable_tls(self, dangerous_disable_tls: Option<bool>) -> (config: Self)
        ensures
            config == (Config { dangerous_disable_tls, ..self }),
    {
        let mut config = self;
        config.dangerous_disable_tls = dangerous_disable_tls;
        config
    }

}

} // verus!

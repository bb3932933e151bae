//! Configuration of the command line.

use crate::ids::ids::UserToken;
use vstd::prelude::*;

verus! {

/// CLI configuration.
pub struct Config {
    /// URL of the Nexigon Hub server.
    pub hub_url: String,
    /// User token.
    pub token: UserToken,
}

impl Config {
    /// Creates a new [`Config`]. What is optional is left unset.
    pub fn new(hub_url: String, token: UserToken) -> (config: Self)
        ensures
            config == (Config {
                hub_url,
                token,
            }),
    {
        Self {
            hub_url,
            token,
        }
    }

    /// Sets the value of `hub_url`.
    pub fn set_hub_url(&mut self, hub_url: String) -> (config: &mut Self)
        ensures
            *config == (Config { hub_url, ..*old(self) }),
            *final(self) == *final(config),
    {
        self.hub_url = hub_url;
        self
    }

    /// Sets the value of `hub_url`.
    pub fn with_hub_url(self, hub_url: String) -> (config: Self)
        ensures
            config == (Config { hub_url, ..self }),
    {
        let mut config = self;
        config.hub_url = hub_url;
        config
    }

    /// Sets the value of `token`.
    pub fn set_token(&mut self, token: UserToken) -> (config: &mut Self)
        ensures
            *config == (Config { token, ..*old(self) }),
            *final(self) == *final(config),
    {
        self.token = token;
        self
    }

    /// Sets the value of `token`.
    pub fn with_token(self, token: UserToken) -> (config: Self)
        ensures
            config == (Config { token, ..self }),
    {
        let mut config = self;
        config.token = token;
        config
    }

}

} // verus!

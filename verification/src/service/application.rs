//! The configuration of the service.

use vstd::prelude::*;

verus! {

/// Where the service listens, where its database is, and the secret with
/// which it signs its tokens.
pub struct Config {
    server_addr: String,
    database_url: String,
    jwt_secret: String,
}

/// The service, with the configuration that it runs with.
pub struct Application {
    config: Config,
}

impl Config {
    /// A configuration of the three settings.
    pub fn new(server_addr: String, database_url: String, jwt_secret: String) -> (c: Config)
        ensures
            c.server_addr() == server_addr,
            c.database_url() == database_url,
            c.jwt_secret() == jwt_secret,
    {
        Config { server_addr, database_url, jwt_secret }
    }

    /// The address on which the service listens.
    pub closed spec fn server_addr(&self) -> String {
        self.server_addr
    }

    /// The address of the database.
    pub closed spec fn database_url(&self) -> String {
        self.database_url
    }

    /// The secret with which tokens are signed.
    pub closed spec fn jwt_secret(&self) -> String {
        self.jwt_secret
    }

    /// The address on which the service listens.
    pub fn get_server_addr(&self) -> (r: &String)
        ensures
            *r == self.server_addr(),
    {
        &self.server_addr
    }

    /// The address of the database.
    pub fn get_database_url(&self) -> (r: &String)
        ensures
            *r == self.database_url(),
    {
        &self.database_url
    }

    /// The secret with which tokens are signed.
    pub fn get_jwt_secret(&self) -> (r: &String)
        ensures
            *r == self.jwt_secret(),
    {
        &self.jwt_secret
    }
}

impl Application {
    /// The service that runs with the given configuration.
    pub fn new(config: Config) -> (a: Application)
        ensures
            a.config() == config,
    {
        Application { config }
    }

    /// The configuration that the service runs with.
    pub closed spec fn config(&self) -> Config {
        self.config
    }

    /// The configuration that the service runs with.
    pub fn get_config(&self) -> (r: &Config)
        ensures
            *r == self.config(),
    {
        &self.config
    }
}

} // verus!

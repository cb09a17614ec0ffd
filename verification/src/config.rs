//! Application configuration: plain values handed in from the process
//! boundary (environment or command line), with the documented defaults.

use vstd::prelude::*;
use vstd::string::StringExecFns;

verus! {

/// Which environment the process runs in; selects the log destination.
#[derive(Clone, Copy, Debug, PartialEq, Eq, Structural)]
pub enum CargoEnv {
    Development,
    Production,
}

/// The configuration the server is constructed with.
pub struct AppConfig {
    pub cargo_env: CargoEnv,
    pub app_host: String,
    pub app_port: u16,
    pub mongo_uri: String,
    pub mongo_db: String,
}

impl AppConfig {
    pub fn new(
        cargo_env: CargoEnv,
        app_host: String,
        app_port: u16,
        mongo_uri: String,
        mongo_db: String,
    ) -> (c: Self)
        ensures
            c.cargo_env == cargo_env,
            c.app_host == app_host,
            c.app_port == app_port,
            c.mongo_uri == mongo_uri,
            c.mongo_db == mongo_db,
    {
        AppConfig { cargo_env, app_host, app_port, mongo_uri, mongo_db }
    }
}

impl Default for AppConfig {
    /// The documented defaults: development on localhost port 5000, a local
    /// store with no database name chosen yet.
    fn default() -> (c: Self)
        ensures
            c.cargo_env == CargoEnv::Development,
            c.app_host@ == "127.0.0.1"@,
            c.app_port == 5000,
            c.mongo_uri@ == "mongodb://localhost:27017"@,
            c.mongo_db@ == Seq::<char>::empty(),
    {
        AppConfig {
            cargo_env: CargoEnv::Development,
            app_host: String::from_str("127.0.0.1"),
            app_port: 5000,
            mongo_uri: String::from_str("mongodb://localhost:27017"),
            mongo_db: String::new(),
        }
    }
}

} // verus!

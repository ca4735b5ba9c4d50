//! What a process is configured with: where the store lives, where the
//! storage directory is, and where the service listens.

use vstd::prelude::*;

verus! {

/// The configuration of a process.
#[derive(Debug, PartialEq, Eq)]
pub struct Config {
    /// The connection string that selects the durable store.
    pub database_url: String,
    /// The directory that is created at startup if it is absent.
    pub storage_dir: String,
    /// The address on which the service listens.
    pub listen_addr: String,
}

/// The name of the environment variable that may hold the connection string.
pub open spec fn spec_database_url_variable() -> Seq<char> {
    "DATABASE_URL"@
}

/// The connection string that is used when none is configured: a local
/// file, created if it is absent.
pub open spec fn spec_default_database_url() -> Seq<char> {
    "sqlite:/data/counter.db?mode=rwc"@
}

/// The directory of the default store.
pub open spec fn spec_storage_dir() -> Seq<char> {
    "/data"@
}

/// The fixed address and port of the listener.
pub open spec fn spec_listen_addr() -> Seq<char> {
    "0.0.0.0:3000"@
}

/// The name of the environment variable that may hold the connection string.
pub fn database_url_variable() -> (name: &'static str)
    ensures
        name@ == spec_database_url_variable(),
{
    "DATABASE_URL"
}

impl Config {
    /// The configuration of a process, given the connection string found in
    /// its environment, if there was one. A configured connection string is
    /// taken as it is; without one the default applies. The storage
    /// directory and the listening address are fixed.
    pub fn resolve(configured_url: Option<String>) -> (config: Config)
        ensures
            config.database_url@ == match configured_url {
                Some(url) => url@,
                None => spec_default_database_url(),
            },
            config.storage_dir@ == spec_storage_dir(),
            config.listen_addr@ == spec_listen_addr(),
    {
        let database_url = match configured_url {
            Some(url) => url,
            None => "sqlite:/data/counter.db?mode=rwc".to_owned(),
        };
        Config {
            database_url,
            storage_dir: "/data".to_owned(),
            listen_addr: "0.0.0.0:3000".to_owned(),
        }
    }
}

} // verus!

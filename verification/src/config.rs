//! Service configuration: bind address, port, and the location of the
//! backing store.  The store location is either a filesystem path or the
//! reserved sentinel `"memory"`, which selects an ephemeral in-memory store.

use vstd::prelude::*;

verus! {

/// Configuration of the service: where to listen and which store file to use.
pub struct Config {
    /// Bind IP address, as four octets.
    pub address: [u8; 4],
    /// TCP port to listen on.
    pub port: u16,
    /// Store location: a file path, or the sentinel `"memory"` for an
    /// ephemeral in-memory store.
    pub db_file: String,
}

impl Config {
    /// The default store location: the in-memory sentinel.
    pub fn default_db_file() -> (r: String)
        ensures
            r@ == "memory"@,
    {
        "memory".to_owned()
    }

    /// The default bind address: the loopback interface.
    pub fn default_address() -> (r: [u8; 4])
        ensures
            r@ == seq![127u8, 0u8, 0u8, 1u8],
    {
        let r: [u8; 4] = [127, 0, 0, 1];
        proof {
            assert(r@ =~= seq![127u8, 0u8, 0u8, 1u8]);
        }
        r
    }

    /// The default TCP port.
    pub fn default_port() -> (r: u16)
        ensures
            r == 4000,
    {
        4000
    }

    /// Whether this configuration selects the ephemeral in-memory store
    /// rather than a file on disk.
    pub fn uses_memory_store(&self) -> (r: bool)
        ensures
            r == (self.db_file@ == "memory"@),
    {
        let sentinel: String = "memory".to_owned();
        self.db_file == sentinel
    }
}

impl Default for Config {
    /// The configuration used when no configuration file exists yet.
    fn default() -> (r: Config)
        ensures
            r.address@ == seq![127u8, 0u8, 0u8, 1u8],
            r.port == 4000,
            r.db_file@ == "memory"@,
    {
        Config {
            address: Config::default_address(),
            port: Config::default_port(),
            db_file: Config::default_db_file(),
        }
    }
}

} // verus!

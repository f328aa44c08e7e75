//! The wrapper's persisted settings and their defaults.

use vstd::prelude::*;

verus! {

/// The wrapper's settings: the port its control surface listens on, the
/// path of the jar the child runs, and the child's heap bound in megabytes.
#[derive(Debug, Clone, PartialEq, Eq)]
pub struct Config {
    pub port: u16,
    pub server_jar_path: String,
    pub max_memory_buffer_size: u16,
}

impl Default for Config {
    /// The settings used when no configuration file is present: the jar is
    /// expected in the directory the wrapper is run from.
    fn default() -> (c: Config)
        ensures
            c.port == 6969,
            c.server_jar_path@ == "server.jar"@,
            c.max_memory_buffer_size == 2048,
    {
        Config {
            port: 6969,
            server_jar_path: String::from_str("server.jar"),
            max_memory_buffer_size: 2048,
        }
    }
}

} // verus!

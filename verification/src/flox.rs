//! Process-wide shared configuration handed to every project: the target
//! platform identifier and the directories the process may scratch in.
//! Projects borrow one `Flox` value for their whole lifetime, so every
//! project derived from another sees the same configuration.

use vstd::prelude::*;

verus! {

/// Shared configuration for all projects of one process.
#[derive(Debug)]
pub struct Flox {
    /// Target platform identifier, e.g. `aarch64-darwin`; environment
    /// discovery is restricted to this platform.
    pub system: String,
    /// Directory for ephemeral data; transaction sandboxes are allocated
    /// inside it.
    pub temp_dir: String,
    /// Directory for cached data.
    pub cache_dir: String,
    /// Directory for persistent configuration.
    pub config_dir: String,
}

impl Flox {
    pub fn new(system: String, temp_dir: String, cache_dir: String, config_dir: String) -> (r:
        Flox)
        ensures
            r.system@ == system@,
            r.temp_dir@ == temp_dir@,
            r.cache_dir@ == cache_dir@,
            r.config_dir@ == config_dir@,
    {
        Flox { system, temp_dir, cache_dir, config_dir }
    }
}

} // verus!

//! Command-line options of the server, mirroring the vanilla server's with
//! Rust-idiomatic naming and additional options for observability. The
//! command line itself is parsed by the binary.

use vstd::prelude::*;
use crate::config::ServerConfig;

verus! {

/// The command-line options.
#[derive(Debug, Clone)]
pub struct Args {
    /// Override the server port (overrides server.properties value).
    pub port: Option<u16>,
    /// Override the world/level name (overrides server.properties value).
    pub world: Option<String>,
    /// Set the universe directory (parent of world folders); `.` by default.
    pub universe: String,
    /// Disable GUI (always headless — this flag exists for vanilla compatibility).
    pub nogui: bool,
    /// Set the minimum log level; `info` by default.
    pub log_level: String,
    /// Path to the server.properties configuration file;
    /// `server.properties` by default.
    pub config: String,
    /// Force upgrade world data on startup.
    pub force_upgrade: bool,
    /// Initialize server.properties and exit.
    pub init_settings: bool,
    /// Run in demo mode.
    pub demo: bool,
    /// Erase cached world data.
    pub erase_cache: bool,
    /// Load with vanilla datapack only (safe mode).
    pub safe_mode: bool,
}

impl Args {
    /// Applies the overrides of the command line to a configuration loaded
    /// from the file: `--port` replaces the server port and `--world` the
    /// level name; everything else stays.
    pub fn apply_overrides(&self, config: &mut ServerConfig)
        requires
            old(config).wf(),
        ensures
            final(config).wf(),
            final(config).server_port == match self.port {
                Some(p) => p,
                None => old(config).server_port,
            },
            final(config).level_name@ == match self.world {
                Some(w) => w@,
                None => old(config).level_name@,
            },
            final(config).same_except_port_and_level(&*old(config)),
            final(config).unknown() == old(config).unknown(),
    {
        let world = match &self.world {
            Some(w) => Some(w.clone()),
            None => None,
        };
        config.apply_cli_overrides(self.port, world);
    }
}

} // verus!

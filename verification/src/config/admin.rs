//! Admin, security, RCON, and query configuration.

use vstd::prelude::*;

verus! {

/// Admin and security settings.
#[derive(Debug, Clone, Copy, PartialEq, Eq, Structural)]
pub struct AdminConfig {
    /// Enable the server whitelist (default `false`).
    pub white_list: bool,
    /// Kick non-whitelisted players immediately on reload (default `false`).
    pub enforce_whitelist: bool,
    /// Default permission level for ops (default `4`).
    pub op_permission_level: i32,
    /// Permission level for function commands (default `2`).
    pub function_permission_level: i32,
    /// Require signed chat profiles (default `true`).
    pub enforce_secure_profile: bool,
    /// Log player IP addresses (default `true`).
    pub log_ips: bool,
    /// Max time a single tick may take in ms before the watchdog kills the server (default `60000`).
    pub max_tick_time: i64,
    /// Minutes before idle players are kicked; `0` disables (default `0`).
    pub player_idle_timeout: i32,
    /// Broadcast console commands to online ops (default `true`).
    pub broadcast_console_to_ops: bool,
    /// Broadcast RCON output to online ops (default `true`).
    pub broadcast_rcon_to_ops: bool,
    /// Seconds to pause the game loop when the server is empty (default `60`).
    pub pause_when_empty_seconds: i32,
}

impl Default for AdminConfig {
    fn default() -> (r: Self)
        ensures
            r == (AdminConfig {
                white_list: false,
                enforce_whitelist: false,
                op_permission_level: 4,
                function_permission_level: 2,
                enforce_secure_profile: true,
                log_ips: true,
                max_tick_time: 60_000,
                player_idle_timeout: 0,
                broadcast_console_to_ops: true,
                broadcast_rcon_to_ops: true,
                pause_when_empty_seconds: 60,
            }),
    {
        AdminConfig {
            white_list: false,
            enforce_whitelist: false,
            op_permission_level: 4,
            function_permission_level: 2,
            enforce_secure_profile: true,
            log_ips: true,
            max_tick_time: 60_000,
            player_idle_timeout: 0,
            broadcast_console_to_ops: true,
            broadcast_rcon_to_ops: true,
            pause_when_empty_seconds: 60,
        }
    }
}

/// RCON remote console settings.
///
/// Its debug text (see [`RconConfig::redacted_debug`]) never shows the
/// password.
#[derive(Clone)]
pub struct RconConfig {
    /// Enable the RCON remote console (default `false`).
    pub enabled: bool,
    /// RCON listening port (default `25575`).
    pub port: u16,
    /// RCON password (default `""`).
    pub password: String,
}

impl RconConfig {
    /// The debug text of the settings, with the password replaced by
    /// `[REDACTED]`.
    pub open spec fn spec_redacted_debug(&self) -> Seq<char> {
        "RconConfig { enabled: "@ + crate::config::bool_text(self.enabled) + ", port: "@
            + crate::text::int_digits(self.port as int) + ", password: \"[REDACTED]\" }"@
    }

    /// The debug text of the settings, with the password replaced by
    /// `[REDACTED]`.
    pub fn redacted_debug(&self) -> (r: String)
        ensures
            r@ == self.spec_redacted_debug(),
    {
        let mut s = String::new();
        crate::text::push_str(&mut s, "RconConfig { enabled: ");
        if self.enabled {
            crate::text::push_str(&mut s, "true");
        } else {
            crate::text::push_str(&mut s, "false");
        }
        proof {
            reveal_strlit("true");
            reveal_strlit("false");
        }
        crate::text::push_str(&mut s, ", port: ");
        crate::text::write_int(&mut s, self.port as i64);
        crate::text::push_str(&mut s, ", password: \"[REDACTED]\" }");
        assert(s@ =~= self.spec_redacted_debug());
        s
    }
}

impl Default for RconConfig {
    fn default() -> (r: Self)
        ensures
            !r.enabled,
            r.port == 25575,
            r.password@ == ""@,
    {
        RconConfig { enabled: false, port: 25575, password: "".to_owned() }
    }
}

/// GameSpy4 query protocol settings.
#[derive(Debug, Clone, Copy, PartialEq, Eq, Structural)]
pub struct QueryConfig {
    /// Enable the GameSpy4 query protocol (default `false`).
    pub enabled: bool,
    /// Query protocol port (default `25565`).
    pub port: u16,
}

impl Default for QueryConfig {
    fn default() -> (r: Self)
        ensures
            r == (QueryConfig { enabled: false, port: 25565 }),
    {
        QueryConfig { enabled: false, port: 25565 }
    }
}

} // verus!

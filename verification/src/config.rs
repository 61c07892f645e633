//! Server configuration loaded from `server.properties`.
//!
//! A strongly typed [`ServerConfig`] whose defaults match vanilla
//! Minecraft 26.1-pre-3, read from and written back to the Java Properties
//! format. Keys the server does not know are kept and written back after
//! the known ones.

pub mod admin;
pub mod advanced;
pub mod display;
pub mod error;
pub mod gameplay;
pub mod network;
pub mod world;

use vstd::prelude::*;
use crate::properties::{Properties, keys_of, parse_properties, spec_parse_properties};
use crate::text::{
    str_eq, int_digits, padded_digits, parse_int, push_char, push_str, spec_parse_int, write_int,
    write_padded,
};
use crate::sorting::{sorted_pairs, spec_sorted_entries, views_of_pairs};

verus! {

// ---------------------------------------------------------------------------
// Typed property helpers
// ---------------------------------------------------------------------------

/// The text `true`.
pub open spec fn true_text() -> Seq<char> {
    seq!['t', 'r', 'u', 'e']
}

/// The text `false`.
pub open spec fn false_text() -> Seq<char> {
    seq!['f', 'a', 'l', 's', 'e']
}

/// The text of a boolean, as `Display` writes it.
pub open spec fn bool_text(b: bool) -> Seq<char> {
    if b {
        true_text()
    } else {
        false_text()
    }
}

/// The value of `key`, or `default` when it is absent.
pub open spec fn prop_string(m: Map<Seq<char>, Seq<char>>, key: Seq<char>, default: Seq<char>) -> Seq<char> {
    if m.contains_key(key) {
        m[key]
    } else {
        default
    }
}

/// The value of `key` read as a boolean (exactly `true` or `false`), or
/// `default` when it is absent or neither.
pub open spec fn prop_bool(m: Map<Seq<char>, Seq<char>>, key: Seq<char>, default: bool) -> bool {
    if m.contains_key(key) && m[key] == true_text() {
        true
    } else if m.contains_key(key) && m[key] == false_text() {
        false
    } else {
        default
    }
}

/// The value of `key` read as an integer of the type whose values are
/// `min..=max` (see [`spec_parse_int`]), or `default` when it is absent or
/// does not parse.
pub open spec fn prop_int(
    m: Map<Seq<char>, Seq<char>>,
    key: Seq<char>,
    min: int,
    max: int,
    signed: bool,
    default: int,
) -> int {
    if m.contains_key(key) && spec_parse_int(m[key], min, max, signed) is Some {
        spec_parse_int(m[key], min, max, signed)->0
    } else {
        default
    }
}

/// Returns a `String` from the map, falling back to `default`.
pub fn get_string(props: &Properties, key: &str, default: &str) -> (r: String)
    requires
        props.wf(),
    ensures
        r@ == prop_string(props@, key@, default@),
{
    match props.get(key) {
        Some(v) => v.clone(),
        None => default.to_owned(),
    }
}

/// Returns a `bool` from the map, falling back to `default`.
pub fn get_bool(props: &Properties, key: &str, default: bool) -> (r: bool)
    requires
        props.wf(),
    ensures
        r == prop_bool(props@, key@, default),
{
    proof {
        reveal_strlit("true");
        reveal_strlit("false");
        assert("true"@ =~= true_text());
        assert("false"@ =~= false_text());
    }
    match props.get(key) {
        Some(v) => {
            if str_eq(v.as_str(), "true") {
                true
            } else if str_eq(v.as_str(), "false") {
                false
            } else {
                default
            }
        },
        None => default,
    }
}

/// Parses the value of `key` as an integer in `min..=max`.
fn get_int(props: &Properties, key: &str, min: i128, max: i128, signed: bool) -> (r: Option<i128>)
    requires
        props.wf(),
        -0x8000_0000_0000_0000 <= min <= 0,
        0 <= max <= 0xffff_ffff_ffff_ffff,
    ensures
        r matches Some(v) ==> props@.contains_key(key@) && spec_parse_int(
            props@[key@],
            min as int,
            max as int,
            signed,
        ) == Some(v as int),
        r is None ==> !(props@.contains_key(key@) && spec_parse_int(
            props@[key@],
            min as int,
            max as int,
            signed,
        ) is Some),
{
    match props.get(key) {
        Some(v) => parse_int(v.as_str(), min, max, signed),
        None => None,
    }
}

/// Returns a `u16` from the map, falling back to `default`.
pub fn get_u16(props: &Properties, key: &str, default: u16) -> (r: u16)
    requires
        props.wf(),
    ensures
        r as int == prop_int(props@, key@, 0, 65535, false, default as int),
{
    match get_int(props, key, 0, 65535, false) {
        Some(v) => v as u16,
        None => default,
    }
}

/// Returns a `u32` from the map, falling back to `default`.
pub fn get_u32(props: &Properties, key: &str, default: u32) -> (r: u32)
    requires
        props.wf(),
    ensures
        r as int == prop_int(props@, key@, 0, 4294967295, false, default as int),
{
    match get_int(props, key, 0, 4294967295, false) {
        Some(v) => v as u32,
        None => default,
    }
}

/// Returns a `i32` from the map, falling back to `default`.
pub fn get_i32(props: &Properties, key: &str, default: i32) -> (r: i32)
    requires
        props.wf(),
    ensures
        r as int == prop_int(props@, key@, -2147483648, 2147483647, true, default as int),
{
    match get_int(props, key, -2147483648, 2147483647, true) {
        Some(v) => v as i32,
        None => default,
    }
}

/// Returns a `i64` from the map, falling back to `default`.
pub fn get_i64(props: &Properties, key: &str, default: i64) -> (r: i64)
    requires
        props.wf(),
    ensures
        r as int == prop_int(props@, key@, -9223372036854775808, 9223372036854775807, true, default as int),
{
    match get_int(props, key, -9223372036854775808, 9223372036854775807, true) {
        Some(v) => v as i64,
        None => default,
    }
}

// ---------------------------------------------------------------------------
// ConfigError
// ---------------------------------------------------------------------------

/// Errors that can occur when validating server configuration.
#[derive(Debug, Clone, Copy, PartialEq, Eq, Structural)]
pub enum ConfigError {
    /// Port number is out of valid range (1-65535).
    InvalidPort(u16),
    /// View distance is out of valid range (2-32).
    InvalidViewDistance(u32),
    /// Simulation distance is out of valid range (2-32).
    InvalidSimulationDistance(u32),
    /// Max players must be positive.
    InvalidMaxPlayers(u32),
}

impl ConfigError {
    /// The message shown for this error: a description, the offending value
    /// and the accepted range.
    pub open spec fn spec_message(&self) -> Seq<char> {
        match *self {
            ConfigError::InvalidPort(v) => "invalid port: "@ + int_digits(v as int) + " (must be 1-65535)"@,
            ConfigError::InvalidViewDistance(v) => "invalid view distance: "@ + int_digits(v as int)
                + " (must be 2-32)"@,
            ConfigError::InvalidSimulationDistance(v) => "invalid simulation distance: "@
                + int_digits(v as int) + " (must be 2-32)"@,
            ConfigError::InvalidMaxPlayers(v) => "invalid max players: "@ + int_digits(v as int)
                + " (must be 1+)"@,
        }
    }

    /// The message shown for this error (what `to_string` gives).
    pub fn message(&self) -> (r: String)
        ensures
            r@ == self.spec_message(),
    {
        let mut s = String::new();
        match *self {
            ConfigError::InvalidPort(v) => {
                push_str(&mut s, "invalid port: ");
                write_int(&mut s, v as i64);
                push_str(&mut s, " (must be 1-65535)");
            },
            ConfigError::InvalidViewDistance(v) => {
                push_str(&mut s, "invalid view distance: ");
                write_int(&mut s, v as i64);
                push_str(&mut s, " (must be 2-32)");
            },
            ConfigError::InvalidSimulationDistance(v) => {
                push_str(&mut s, "invalid simulation distance: ");
                write_int(&mut s, v as i64);
                push_str(&mut s, " (must be 2-32)");
            },
            ConfigError::InvalidMaxPlayers(v) => {
                push_str(&mut s, "invalid max players: ");
                write_int(&mut s, v as i64);
                push_str(&mut s, " (must be 1+)");
            },
        }
        assert(s@ =~= self.spec_message());
        s
    }
}

// ---------------------------------------------------------------------------
// ServerConfig
// ---------------------------------------------------------------------------

/// Server configuration loaded from `server.properties`.
///
/// All default values match the vanilla Minecraft 26.1-pre-3 server.
pub struct ServerConfig {
    /// Port the server listens on (default `25565`).
    pub server_port: u16,
    /// IP address to bind to (default `""` — all interfaces).
    pub server_ip: String,
    /// Whether the server authenticates players with Mojang (default `true`).
    pub online_mode: bool,
    /// Block proxy / VPN connections (default `false`).
    pub prevent_proxy_connections: bool,
    /// Byte threshold for packet compression; `-1` disables (default `256`).
    pub network_compression_threshold: i32,
    /// Use epoll/kqueue native transport (default `true`).
    pub use_native_transport: bool,
    /// Maximum packets per second before kicking; `0` disables (default `0`).
    pub rate_limit: i32,
    /// Default game mode (default `"survival"`).
    pub gamemode: String,
    /// World difficulty (default `"easy"`).
    pub difficulty: String,
    /// Hardcore mode — one life (default `false`).
    pub hardcore: bool,
    /// Force players into the default game mode on join (default `false`).
    pub force_gamemode: bool,
    /// Maximum concurrent players (default `20`).
    pub max_players: u32,
    /// Chunk view distance (default `10`).
    pub view_distance: u32,
    /// Simulation distance in chunks (default `10`).
    pub simulation_distance: u32,
    /// Radius around spawn where non-ops cannot build (default `16`).
    pub spawn_protection: u32,
    /// Maximum world border radius in blocks (default `29999984`).
    pub max_world_size: i32,
    /// Allow players to fly in survival (default `false`).
    pub allow_flight: bool,
    /// Name of the world folder (default `"world"`).
    pub level_name: String,
    /// World seed; empty means random (default `""`).
    pub level_seed: String,
    /// Generate structures such as villages (default `true`).
    pub generate_structures: bool,
    /// Limit on chained neighbour block updates (default `1000000`).
    pub max_chained_neighbor_updates: i32,
    /// Spawn NPC villagers (default `true`).
    pub spawn_npcs: bool,
    /// Spawn passive animals (default `true`).
    pub spawn_animals: bool,
    /// Spawn hostile mobs (default `true`).
    pub spawn_monsters: bool,
    /// Enable the Nether dimension (default `true`).
    pub allow_nether: bool,
    /// Message of the day shown in the server list (default `"A Minecraft Server"`).
    pub motd: String,
    /// Respond to server-list pings (default `true`).
    pub enable_status: bool,
    /// Hide player names from the server list (default `false`).
    pub hide_online_players: bool,
    /// Entity tracking range as a percentage (default `100`).
    pub entity_broadcast_range_percentage: i32,
    /// Enable the server whitelist (default `false`).
    pub white_list: bool,
    /// Kick non-whitelisted players immediately on reload (default `false`).
    pub enforce_whitelist: bool,
    /// Default permission level for ops (default `4`).
    pub op_permission_level: i32,
    /// Permission level for function commands (default `2`).
    pub function_permission_level: i32,
    /// Require signed chat profiles (default `true`).
    pub enforce_secure_profile: bool,
    /// Log player IP addresses (default `true`).
    pub log_ips: bool,
    /// Max time a single tick may take in ms before the watchdog kills the server (default `60000`).
    pub max_tick_time: i64,
    /// Minutes before idle players are kicked; `0` disables (default `0`).
    pub player_idle_timeout: i32,
    /// Broadcast console commands to online ops (default `true`).
    pub broadcast_console_to_ops: bool,
    /// Broadcast RCON output to online ops (default `true`).
    pub broadcast_rcon_to_ops: bool,
    /// Enable the RCON remote console (default `false`).
    pub enable_rcon: bool,
    /// RCON listening port (default `25575`).
    pub rcon_port: u16,
    /// RCON password (default `""`).
    pub rcon_password: String,
    /// Enable the GameSpy4 query protocol (default `false`).
    pub enable_query: bool,
    /// Query protocol port (default `25565`).
    pub query_port: u16,
    /// URL of the server resource pack (default `""`).
    pub resource_pack: String,
    /// SHA-1 hash of the resource pack (default `""`).
    pub resource_pack_sha1: String,
    /// Prompt shown to players for the resource pack (default `""`).
    pub resource_pack_prompt: String,
    /// Whether the resource pack is mandatory (default `false`).
    pub require_resource_pack: bool,
    /// Enable the management server (default `false`).
    pub management_server_enabled: bool,
    /// Management server host (default `"localhost"`).
    pub management_server_host: String,
    /// Management server port; `0` means auto-assign (default `0`).
    pub management_server_port: u16,
    /// Shared secret for the management server (default `""`).
    pub management_server_secret: String,
    /// Require TLS on the management server (default `true`).
    pub management_server_tls_enabled: bool,
    /// Show a code-of-conduct prompt on join (default `false`).
    pub enable_code_of_conduct: bool,
    /// Link to the server's bug report page (default `""`).
    pub bug_report_link: String,
    /// Synchronous chunk writes for data safety (default `true`).
    pub sync_chunk_writes: bool,
    /// Region file compression algorithm (default `"deflate"`).
    pub region_file_compression: String,
    /// Enable JMX monitoring beans (default `false`).
    pub enable_jmx_monitoring: bool,
    /// External text-filtering service config path (default `""`).
    pub text_filtering_config: String,
    /// Text-filtering protocol version (default `0`).
    pub text_filtering_version: i32,
    /// Accept transfer packets from other servers (default `false`).
    pub accepts_transfers: bool,
    /// Seconds to pause the game loop when the server is empty (default `60`).
    pub pause_when_empty_seconds: i32,
    /// Comma-separated data packs enabled at startup (default `"vanilla"`).
    pub initial_enabled_packs: String,
    /// Comma-separated data packs disabled at startup (default `""`).
    pub initial_disabled_packs: String,
    /// Heartbeat interval in seconds for status polling (default `0`).
    pub status_heartbeat_interval: i32,
    /// Unknown keys from the properties file, preserved for
    /// forward-compatibility and written back verbatim on save.
    pub unknown_keys: Properties,
}

/// The keys that map to a typed field; any other key is "unknown".
pub open spec fn known_keys() -> Set<Seq<char>> {
    set![
        "server-port"@,
        "server-ip"@,
        "online-mode"@,
        "prevent-proxy-connections"@,
        "network-compression-threshold"@,
        "use-native-transport"@,
        "rate-limit"@,
        "gamemode"@,
        "difficulty"@,
        "hardcore"@,
        "force-gamemode"@,
        "max-players"@,
        "view-distance"@,
        "simulation-distance"@,
        "spawn-protection"@,
        "max-world-size"@,
        "allow-flight"@,
        "level-name"@,
        "level-seed"@,
        "generate-structures"@,
        "max-chained-neighbor-updates"@,
        "spawn-npcs"@,
        "spawn-animals"@,
        "spawn-monsters"@,
        "allow-nether"@,
        "motd"@,
        "enable-status"@,
        "hide-online-players"@,
        "entity-broadcast-range-percentage"@,
        "white-list"@,
        "enforce-whitelist"@,
        "op-permission-level"@,
        "function-permission-level"@,
        "enforce-secure-profile"@,
        "log-ips"@,
        "max-tick-time"@,
        "player-idle-timeout"@,
        "broadcast-console-to-ops"@,
        "broadcast-rcon-to-ops"@,
        "enable-rcon"@,
        "rcon.port"@,
        "rcon.password"@,
        "enable-query"@,
        "query.port"@,
        "resource-pack"@,
        "resource-pack-sha1"@,
        "resource-pack-prompt"@,
        "require-resource-pack"@,
        "management-server-enabled"@,
        "management-server-host"@,
        "management-server-port"@,
        "management-server-secret"@,
        "management-server-tls-enabled"@,
        "enable-code-of-conduct"@,
        "bug-report-link"@,
        "sync-chunk-writes"@,
        "region-file-compression"@,
        "enable-jmx-monitoring"@,
        "text-filtering-config"@,
        "text-filtering-version"@,
        "accepts-transfers"@,
        "pause-when-empty-seconds"@,
        "initial-enabled-packs"@,
        "initial-disabled-packs"@,
        "status-heartbeat-interval"@,
    ]
}

/// Returns `true` when `key` maps to a typed field of [`ServerConfig`].
pub fn is_known_key(key: &str) -> (r: bool)
    ensures
        r == known_keys().contains(key@),
{
    str_eq(key, "server-port")
        || str_eq(key, "server-ip")
        || str_eq(key, "online-mode")
        || str_eq(key, "prevent-proxy-connections")
        || str_eq(key, "network-compression-threshold")
        || str_eq(key, "use-native-transport")
        || str_eq(key, "rate-limit")
        || str_eq(key, "gamemode")
        || str_eq(key, "difficulty")
        || str_eq(key, "hardcore")
        || str_eq(key, "force-gamemode")
        || str_eq(key, "max-players")
        || str_eq(key, "view-distance")
        || str_eq(key, "simulation-distance")
        || str_eq(key, "spawn-protection")
        || str_eq(key, "max-world-size")
        || str_eq(key, "allow-flight")
        || str_eq(key, "level-name")
        || str_eq(key, "level-seed")
        || str_eq(key, "generate-structures")
        || str_eq(key, "max-chained-neighbor-updates")
        || str_eq(key, "spawn-npcs")
        || str_eq(key, "spawn-animals")
        || str_eq(key, "spawn-monsters")
        || str_eq(key, "allow-nether")
        || str_eq(key, "motd")
        || str_eq(key, "enable-status")
        || str_eq(key, "hide-online-players")
        || str_eq(key, "entity-broadcast-range-percentage")
        || str_eq(key, "white-list")
        || str_eq(key, "enforce-whitelist")
        || str_eq(key, "op-permission-level")
        || str_eq(key, "function-permission-level")
        || str_eq(key, "enforce-secure-profile")
        || str_eq(key, "log-ips")
        || str_eq(key, "max-tick-time")
        || str_eq(key, "player-idle-timeout")
        || str_eq(key, "broadcast-console-to-ops")
        || str_eq(key, "broadcast-rcon-to-ops")
        || str_eq(key, "enable-rcon")
        || str_eq(key, "rcon.port")
        || str_eq(key, "rcon.password")
        || str_eq(key, "enable-query")
        || str_eq(key, "query.port")
        || str_eq(key, "resource-pack")
        || str_eq(key, "resource-pack-sha1")
        || str_eq(key, "resource-pack-prompt")
        || str_eq(key, "require-resource-pack")
        || str_eq(key, "management-server-enabled")
        || str_eq(key, "management-server-host")
        || str_eq(key, "management-server-port")
        || str_eq(key, "management-server-secret")
        || str_eq(key, "management-server-tls-enabled")
        || str_eq(key, "enable-code-of-conduct")
        || str_eq(key, "bug-report-link")
        || str_eq(key, "sync-chunk-writes")
        || str_eq(key, "region-file-compression")
        || str_eq(key, "enable-jmx-monitoring")
        || str_eq(key, "text-filtering-config")
        || str_eq(key, "text-filtering-version")
        || str_eq(key, "accepts-transfers")
        || str_eq(key, "pause-when-empty-seconds")
        || str_eq(key, "initial-enabled-packs")
        || str_eq(key, "initial-disabled-packs")
        || str_eq(key, "status-heartbeat-interval")
}

impl ServerConfig {
    /// `unknown_keys` is well formed.
    pub open spec fn wf(&self) -> bool {
        &&& self.unknown_keys.wf()
        &&& self.unknown_keys@.dom().disjoint(known_keys())
    }

    /// The keys from the properties file that map to no field, with their
    /// values.
    pub open spec fn unknown(&self) -> Map<Seq<char>, Seq<char>> {
        self.unknown_keys@
    }

    /// Every field of `self` is what [`ServerConfig::from_properties`] reads
    /// from the map `m`, and the unknown keys are `m` without the known
    /// ones.
    pub open spec fn read_from(&self, m: Map<Seq<char>, Seq<char>>) -> bool {
        &&& self.server_port as int == prop_int(m, "server-port"@, 0, 65535, false, 25565)
        &&& self.server_ip@ == prop_string(m, "server-ip"@, ""@)
        &&& self.online_mode == prop_bool(m, "online-mode"@, true)
        &&& self.prevent_proxy_connections == prop_bool(m, "prevent-proxy-connections"@, false)
        &&& self.network_compression_threshold as int == prop_int(m, "network-compression-threshold"@, -2147483648, 2147483647, true, 256)
        &&& self.use_native_transport == prop_bool(m, "use-native-transport"@, true)
        &&& self.rate_limit as int == prop_int(m, "rate-limit"@, -2147483648, 2147483647, true, 0)
        &&& self.gamemode@ == prop_string(m, "gamemode"@, "survival"@)
        &&& self.difficulty@ == prop_string(m, "difficulty"@, "easy"@)
        &&& self.hardcore == prop_bool(m, "hardcore"@, false)
        &&& self.force_gamemode == prop_bool(m, "force-gamemode"@, false)
        &&& self.max_players as int == prop_int(m, "max-players"@, 0, 4294967295, false, 20)
        &&& self.view_distance as int == prop_int(m, "view-distance"@, 0, 4294967295, false, 10)
        &&& self.simulation_distance as int == prop_int(m, "simulation-distance"@, 0, 4294967295, false, 10)
        &&& self.spawn_protection as int == prop_int(m, "spawn-protection"@, 0, 4294967295, false, 16)
        &&& self.max_world_size as int == prop_int(m, "max-world-size"@, -2147483648, 2147483647, true, 29999984)
        &&& self.allow_flight == prop_bool(m, "allow-flight"@, false)
        &&& self.level_name@ == prop_string(m, "level-name"@, "world"@)
        &&& self.level_seed@ == prop_string(m, "level-seed"@, ""@)
        &&& self.generate_structures == prop_bool(m, "generate-structures"@, true)
        &&& self.max_chained_neighbor_updates as int == prop_int(m, "max-chained-neighbor-updates"@, -2147483648, 2147483647, true, 1000000)
        &&& self.spawn_npcs == prop_bool(m, "spawn-npcs"@, true)
        &&& self.spawn_animals == prop_bool(m, "spawn-animals"@, true)
        &&& self.spawn_monsters == prop_bool(m, "spawn-monsters"@, true)
        &&& self.allow_nether == prop_bool(m, "allow-nether"@, true)
        &&& self.motd@ == prop_string(m, "motd"@, "A Minecraft Server"@)
        &&& self.enable_status == prop_bool(m, "enable-status"@, true)
        &&& self.hide_online_players == prop_bool(m, "hide-online-players"@, false)
        &&& self.entity_broadcast_range_percentage as int == prop_int(m, "entity-broadcast-range-percentage"@, -2147483648, 2147483647, true, 100)
        &&& self.white_list == prop_bool(m, "white-list"@, false)
        &&& self.enforce_whitelist == prop_bool(m, "enforce-whitelist"@, false)
        &&& self.op_permission_level as int == prop_int(m, "op-permission-level"@, -2147483648, 2147483647, true, 4)
        &&& self.function_permission_level as int == prop_int(m, "function-permission-level"@, -2147483648, 2147483647, true, 2)
        &&& self.enforce_secure_profile == prop_bool(m, "enforce-secure-profile"@, true)
        &&& self.log_ips == prop_bool(m, "log-ips"@, true)
        &&& self.max_tick_time as int == prop_int(m, "max-tick-time"@, -9223372036854775808, 9223372036854775807, true, 60000)
        &&& self.player_idle_timeout as int == prop_int(m, "player-idle-timeout"@, -2147483648, 2147483647, true, 0)
        &&& self.broadcast_console_to_ops == prop_bool(m, "broadcast-console-to-ops"@, true)
        &&& self.broadcast_rcon_to_ops == prop_bool(m, "broadcast-rcon-to-ops"@, true)
        &&& self.enable_rcon == prop_bool(m, "enable-rcon"@, false)
        &&& self.rcon_port as int == prop_int(m, "rcon.port"@, 0, 65535, false, 25575)
        &&& self.rcon_password@ == prop_string(m, "rcon.password"@, ""@)
        &&& self.enable_query == prop_bool(m, "enable-query"@, false)
        &&& self.query_port as int == prop_int(m, "query.port"@, 0, 65535, false, 25565)
        &&& self.resource_pack@ == prop_string(m, "resource-pack"@, ""@)
        &&& self.resource_pack_sha1@ == prop_string(m, "resource-pack-sha1"@, ""@)
        &&& self.resource_pack_prompt@ == prop_string(m, "resource-pack-prompt"@, ""@)
        &&& self.require_resource_pack == prop_bool(m, "require-resource-pack"@, false)
        &&& self.management_server_enabled == prop_bool(m, "management-server-enabled"@, false)
        &&& self.management_server_host@ == prop_string(m, "management-server-host"@, "localhost"@)
        &&& self.management_server_port as int == prop_int(m, "management-server-port"@, 0, 65535, false, 0)
        &&& self.management_server_secret@ == prop_string(m, "management-server-secret"@, ""@)
        &&& self.management_server_tls_enabled == prop_bool(m, "management-server-tls-enabled"@, true)
        &&& self.enable_code_of_conduct == prop_bool(m, "enable-code-of-conduct"@, false)
        &&& self.bug_report_link@ == prop_string(m, "bug-report-link"@, ""@)
        &&& self.sync_chunk_writes == prop_bool(m, "sync-chunk-writes"@, true)
        &&& self.region_file_compression@ == prop_string(m, "region-file-compression"@, "deflate"@)
        &&& self.enable_jmx_monitoring == prop_bool(m, "enable-jmx-monitoring"@, false)
        &&& self.text_filtering_config@ == prop_string(m, "text-filtering-config"@, ""@)
        &&& self.text_filtering_version as int == prop_int(m, "text-filtering-version"@, -2147483648, 2147483647, true, 0)
        &&& self.accepts_transfers == prop_bool(m, "accepts-transfers"@, false)
        &&& self.pause_when_empty_seconds as int == prop_int(m, "pause-when-empty-seconds"@, -2147483648, 2147483647, true, 60)
        &&& self.initial_enabled_packs@ == prop_string(m, "initial-enabled-packs"@, "vanilla"@)
        &&& self.initial_disabled_packs@ == prop_string(m, "initial-disabled-packs"@, ""@)
        &&& self.status_heartbeat_interval as int == prop_int(m, "status-heartbeat-interval"@, -2147483648, 2147483647, true, 0)
        &&& self.unknown() == m.remove_keys(known_keys())
    }

    /// Every field of `self` holds its vanilla default and there are no
    /// unknown keys.
    pub open spec fn is_default(&self) -> bool {
        &&& self.server_port == 25565
        &&& self.server_ip@ == ""@
        &&& self.online_mode == true
        &&& self.prevent_proxy_connections == false
        &&& self.network_compression_threshold == 256
        &&& self.use_native_transport == true
        &&& self.rate_limit == 0
        &&& self.gamemode@ == "survival"@
        &&& self.difficulty@ == "easy"@
        &&& self.hardcore == false
        &&& self.force_gamemode == false
        &&& self.max_players == 20
        &&& self.view_distance == 10
        &&& self.simulation_distance == 10
        &&& self.spawn_protection == 16
        &&& self.max_world_size == 29999984
        &&& self.allow_flight == false
        &&& self.level_name@ == "world"@
        &&& self.level_seed@ == ""@
        &&& self.generate_structures == true
        &&& self.max_chained_neighbor_updates == 1000000
        &&& self.spawn_npcs == true
        &&& self.spawn_animals == true
        &&& self.spawn_monsters == true
        &&& self.allow_nether == true
        &&& self.motd@ == "A Minecraft Server"@
        &&& self.enable_status == true
        &&& self.hide_online_players == false
        &&& self.entity_broadcast_range_percentage == 100
        &&& self.white_list == false
        &&& self.enforce_whitelist == false
        &&& self.op_permission_level == 4
        &&& self.function_permission_level == 2
        &&& self.enforce_secure_profile == true
        &&& self.log_ips == true
        &&& self.max_tick_time == 60000
        &&& self.player_idle_timeout == 0
        &&& self.broadcast_console_to_ops == true
        &&& self.broadcast_rcon_to_ops == true
        &&& self.enable_rcon == false
        &&& self.rcon_port == 25575
        &&& self.rcon_password@ == ""@
        &&& self.enable_query == false
        &&& self.query_port == 25565
        &&& self.resource_pack@ == ""@
        &&& self.resource_pack_sha1@ == ""@
        &&& self.resource_pack_prompt@ == ""@
        &&& self.require_resource_pack == false
        &&& self.management_server_enabled == false
        &&& self.management_server_host@ == "localhost"@
        &&& self.management_server_port == 0
        &&& self.management_server_secret@ == ""@
        &&& self.management_server_tls_enabled == true
        &&& self.enable_code_of_conduct == false
        &&& self.bug_report_link@ == ""@
        &&& self.sync_chunk_writes == true
        &&& self.region_file_compression@ == "deflate"@
        &&& self.enable_jmx_monitoring == false
        &&& self.text_filtering_config@ == ""@
        &&& self.text_filtering_version == 0
        &&& self.accepts_transfers == false
        &&& self.pause_when_empty_seconds == 60
        &&& self.initial_enabled_packs@ == "vanilla"@
        &&& self.initial_disabled_packs@ == ""@
        &&& self.status_heartbeat_interval == 0
        &&& self.unknown() == Map::<Seq<char>, Seq<char>>::empty()
    }

    /// Creates a `ServerConfig` with all vanilla defaults.
    pub fn default_config() -> (c: Self)
        ensures
            c.wf(),
            c.is_default(),
    {
        ServerConfig {
            server_port: 25565,
            server_ip: "".to_owned(),
            online_mode: true,
            prevent_proxy_connections: false,
            network_compression_threshold: 256,
            use_native_transport: true,
            rate_limit: 0,
            gamemode: "survival".to_owned(),
            difficulty: "easy".to_owned(),
            hardcore: false,
            force_gamemode: false,
            max_players: 20,
            view_distance: 10,
            simulation_distance: 10,
            spawn_protection: 16,
            max_world_size: 29999984,
            allow_flight: false,
            level_name: "world".to_owned(),
            level_seed: "".to_owned(),
            generate_structures: true,
            max_chained_neighbor_updates: 1000000,
            spawn_npcs: true,
            spawn_animals: true,
            spawn_monsters: true,
            allow_nether: true,
            motd: "A Minecraft Server".to_owned(),
            enable_status: true,
            hide_online_players: false,
            entity_broadcast_range_percentage: 100,
            white_list: false,
            enforce_whitelist: false,
            op_permission_level: 4,
            function_permission_level: 2,
            enforce_secure_profile: true,
            log_ips: true,
            max_tick_time: 60000,
            player_idle_timeout: 0,
            broadcast_console_to_ops: true,
            broadcast_rcon_to_ops: true,
            enable_rcon: false,
            rcon_port: 25575,
            rcon_password: "".to_owned(),
            enable_query: false,
            query_port: 25565,
            resource_pack: "".to_owned(),
            resource_pack_sha1: "".to_owned(),
            resource_pack_prompt: "".to_owned(),
            require_resource_pack: false,
            management_server_enabled: false,
            management_server_host: "localhost".to_owned(),
            management_server_port: 0,
            management_server_secret: "".to_owned(),
            management_server_tls_enabled: true,
            enable_code_of_conduct: false,
            bug_report_link: "".to_owned(),
            sync_chunk_writes: true,
            region_file_compression: "deflate".to_owned(),
            enable_jmx_monitoring: false,
            text_filtering_config: "".to_owned(),
            text_filtering_version: 0,
            accepts_transfers: false,
            pause_when_empty_seconds: 60,
            initial_enabled_packs: "vanilla".to_owned(),
            initial_disabled_packs: "".to_owned(),
            status_heartbeat_interval: 0,
            unknown_keys: Properties::new(),
        }
    }

    /// Parses a `ServerConfig` from a properties map, applying defaults
    /// for any missing key or unreadable value; keys that map to no field
    /// are kept as unknown keys.
    #[verifier::rlimit(40)]
    pub fn from_properties(props: &Properties) -> (c: Self)
        requires
            props.wf(),
        ensures
            c.wf(),
            c.read_from(props@),
    {
        let unknown_keys = unknown_of(props);
        let ghost m = props@;
        let c = ServerConfig {
            server_port: get_u16(props, "server-port", 25565),
            server_ip: get_string(props, "server-ip", ""),
            online_mode: get_bool(props, "online-mode", true),
            prevent_proxy_connections: get_bool(props, "prevent-proxy-connections", false),
            network_compression_threshold: get_i32(props, "network-compression-threshold", 256),
            use_native_transport: get_bool(props, "use-native-transport", true),
            rate_limit: get_i32(props, "rate-limit", 0),
            gamemode: get_string(props, "gamemode", "survival"),
            difficulty: get_string(props, "difficulty", "easy"),
            hardcore: get_bool(props, "hardcore", false),
            force_gamemode: get_bool(props, "force-gamemode", false),
            max_players: get_u32(props, "max-players", 20),
            view_distance: get_u32(props, "view-distance", 10),
            simulation_distance: get_u32(props, "simulation-distance", 10),
            spawn_protection: get_u32(props, "spawn-protection", 16),
            max_world_size: get_i32(props, "max-world-size", 29999984),
            allow_flight: get_bool(props, "allow-flight", false),
            level_name: get_string(props, "level-name", "world"),
            level_seed: get_string(props, "level-seed", ""),
            generate_structures: get_bool(props, "generate-structures", true),
            max_chained_neighbor_updates: get_i32(props, "max-chained-neighbor-updates", 1000000),
            spawn_npcs: get_bool(props, "spawn-npcs", true),
            spawn_animals: get_bool(props, "spawn-animals", true),
            spawn_monsters: get_bool(props, "spawn-monsters", true),
            allow_nether: get_bool(props, "allow-nether", true),
            motd: get_string(props, "motd", "A Minecraft Server"),
            enable_status: get_bool(props, "enable-status", true),
            hide_online_players: get_bool(props, "hide-online-players", false),
            entity_broadcast_range_percentage: get_i32(props, "entity-broadcast-range-percentage", 100),
            white_list: get_bool(props, "white-list", false),
            enforce_whitelist: get_bool(props, "enforce-whitelist", false),
            op_permission_level: get_i32(props, "op-permission-level", 4),
            function_permission_level: get_i32(props, "function-permission-level", 2),
            enforce_secure_profile: get_bool(props, "enforce-secure-profile", true),
            log_ips: get_bool(props, "log-ips", true),
            max_tick_time: get_i64(props, "max-tick-time", 60000),
            player_idle_timeout: get_i32(props, "player-idle-timeout", 0),
            broadcast_console_to_ops: get_bool(props, "broadcast-console-to-ops", true),
            broadcast_rcon_to_ops: get_bool(props, "broadcast-rcon-to-ops", true),
            enable_rcon: get_bool(props, "enable-rcon", false),
            rcon_port: get_u16(props, "rcon.port", 25575),
            rcon_password: get_string(props, "rcon.password", ""),
            enable_query: get_bool(props, "enable-query", false),
            query_port: get_u16(props, "query.port", 25565),
            resource_pack: get_string(props, "resource-pack", ""),
            resource_pack_sha1: get_string(props, "resource-pack-sha1", ""),
            resource_pack_prompt: get_string(props, "resource-pack-prompt", ""),
            require_resource_pack: get_bool(props, "require-resource-pack", false),
            management_server_enabled: get_bool(props, "management-server-enabled", false),
            management_server_host: get_string(props, "management-server-host", "localhost"),
            management_server_port: get_u16(props, "management-server-port", 0),
            management_server_secret: get_string(props, "management-server-secret", ""),
            management_server_tls_enabled: get_bool(props, "management-server-tls-enabled", true),
            enable_code_of_conduct: get_bool(props, "enable-code-of-conduct", false),
            bug_report_link: get_string(props, "bug-report-link", ""),
            sync_chunk_writes: get_bool(props, "sync-chunk-writes", true),
            region_file_compression: get_string(props, "region-file-compression", "deflate"),
            enable_jmx_monitoring: get_bool(props, "enable-jmx-monitoring", false),
            text_filtering_config: get_string(props, "text-filtering-config", ""),
            text_filtering_version: get_i32(props, "text-filtering-version", 0),
            accepts_transfers: get_bool(props, "accepts-transfers", false),
            pause_when_empty_seconds: get_i32(props, "pause-when-empty-seconds", 60),
            initial_enabled_packs: get_string(props, "initial-enabled-packs", "vanilla"),
            initial_disabled_packs: get_string(props, "initial-disabled-packs", ""),
            status_heartbeat_interval: get_i32(props, "status-heartbeat-interval", 0),
            unknown_keys,
        };
        c
    }

    /// Reads a `ServerConfig` from the text of a properties file (see
    /// [`parse_properties`] and [`ServerConfig::from_properties`]).
    pub fn from_properties_text(input: &str) -> (c: Self)
        ensures
            c.wf(),
            c.read_from(spec_parse_properties(input@)),
    {
        let props = parse_properties(input);
        Self::from_properties(&props)
    }

    /// Every setting other than the server port and the level name is the
    /// same in `self` and `other` (the unknown keys included).
    pub open spec fn same_except_port_and_level(&self, other: &ServerConfig) -> bool {
        &&& self.server_ip == other.server_ip
        &&& self.online_mode == other.online_mode
        &&& self.prevent_proxy_connections == other.prevent_proxy_connections
        &&& self.network_compression_threshold == other.network_compression_threshold
        &&& self.use_native_transport == other.use_native_transport
        &&& self.rate_limit == other.rate_limit
        &&& self.gamemode == other.gamemode
        &&& self.difficulty == other.difficulty
        &&& self.hardcore == other.hardcore
        &&& self.force_gamemode == other.force_gamemode
        &&& self.max_players == other.max_players
        &&& self.view_distance == other.view_distance
        &&& self.simulation_distance == other.simulation_distance
        &&& self.spawn_protection == other.spawn_protection
        &&& self.max_world_size == other.max_world_size
        &&& self.allow_flight == other.allow_flight
        &&& self.level_seed == other.level_seed
        &&& self.generate_structures == other.generate_structures
        &&& self.max_chained_neighbor_updates == other.max_chained_neighbor_updates
        &&& self.spawn_npcs == other.spawn_npcs
        &&& self.spawn_animals == other.spawn_animals
        &&& self.spawn_monsters == other.spawn_monsters
        &&& self.allow_nether == other.allow_nether
        &&& self.motd == other.motd
        &&& self.enable_status == other.enable_status
        &&& self.hide_online_players == other.hide_online_players
        &&& self.entity_broadcast_range_percentage == other.entity_broadcast_range_percentage
        &&& self.white_list == other.white_list
        &&& self.enforce_whitelist == other.enforce_whitelist
        &&& self.op_permission_level == other.op_permission_level
        &&& self.function_permission_level == other.function_permission_level
        &&& self.enforce_secure_profile == other.enforce_secure_profile
        &&& self.log_ips == other.log_ips
        &&& self.max_tick_time == other.max_tick_time
        &&& self.player_idle_timeout == other.player_idle_timeout
        &&& self.broadcast_console_to_ops == other.broadcast_console_to_ops
        &&& self.broadcast_rcon_to_ops == other.broadcast_rcon_to_ops
        &&& self.enable_rcon == other.enable_rcon
        &&& self.rcon_port == other.rcon_port
        &&& self.rcon_password == other.rcon_password
        &&& self.enable_query == other.enable_query
        &&& self.query_port == other.query_port
        &&& self.resource_pack == other.resource_pack
        &&& self.resource_pack_sha1 == other.resource_pack_sha1
        &&& self.resource_pack_prompt == other.resource_pack_prompt
        &&& self.require_resource_pack == other.require_resource_pack
        &&& self.management_server_enabled == other.management_server_enabled
        &&& self.management_server_host == other.management_server_host
        &&& self.management_server_port == other.management_server_port
        &&& self.management_server_secret == other.management_server_secret
        &&& self.management_server_tls_enabled == other.management_server_tls_enabled
        &&& self.enable_code_of_conduct == other.enable_code_of_conduct
        &&& self.bug_report_link == other.bug_report_link
        &&& self.sync_chunk_writes == other.sync_chunk_writes
        &&& self.region_file_compression == other.region_file_compression
        &&& self.enable_jmx_monitoring == other.enable_jmx_monitoring
        &&& self.text_filtering_config == other.text_filtering_config
        &&& self.text_filtering_version == other.text_filtering_version
        &&& self.accepts_transfers == other.accepts_transfers
        &&& self.pause_when_empty_seconds == other.pause_when_empty_seconds
        &&& self.initial_enabled_packs == other.initial_enabled_packs
        &&& self.initial_disabled_packs == other.initial_disabled_packs
        &&& self.status_heartbeat_interval == other.status_heartbeat_interval
        &&& self.unknown_keys == other.unknown_keys
    }

    /// Applies the command-line overrides, which take precedence over the
    /// file: `--port` replaces the server port and `--world` the level
    /// name.
    pub fn apply_cli_overrides(&mut self, port: Option<u16>, world: Option<String>)
        requires
            old(self).wf(),
        ensures
            final(self).wf(),
            final(self).server_port == match port {
                Some(p) => p,
                None => old(self).server_port,
            },
            final(self).level_name@ == match world {
                Some(w) => w@,
                None => old(self).level_name@,
            },
            final(self).same_except_port_and_level(&*old(self)),
            final(self).unknown() == old(self).unknown(),
    {
        if let Some(p) = port {
            self.server_port = p;
        }
        if let Some(w) = world {
            self.level_name = w;
        }
    }

    /// The text written to `server.properties` now: the properties text
    /// with the current UTC time in its header.
    pub fn save_text(&self) -> (r: String)
        requires
            self.wf(),
        ensures
            exists|secs: int|
                #![trigger spec_timestamp(secs)]
                secs >= 0 && r@ == Self::spec_properties_text(*self, spec_timestamp(secs)),
    {
        let secs = unix_time_secs();
        let ts = format_timestamp(secs);
        let r = self.to_properties_text(ts.as_str());
        assert(r@ == Self::spec_properties_text(*self, spec_timestamp(secs as int)));
        r
    }

    /// Validates all config values are within acceptable ranges, reporting
    /// the first invalid value found in this order: server port, RCON port
    /// (when RCON is enabled), query port (when query is enabled), view
    /// distance, simulation distance, max players.
    pub fn validate(&self) -> (r: Result<(), ConfigError>)
        ensures
            r == self.spec_validate(),
    {
        if self.server_port == 0 {
            return Err(ConfigError::InvalidPort(self.server_port));
        }
        if self.rcon_port == 0 && self.enable_rcon {
            return Err(ConfigError::InvalidPort(self.rcon_port));
        }
        if self.query_port == 0 && self.enable_query {
            return Err(ConfigError::InvalidPort(self.query_port));
        }
        if !(2 <= self.view_distance && self.view_distance <= 32) {
            return Err(ConfigError::InvalidViewDistance(self.view_distance));
        }
        if !(2 <= self.simulation_distance && self.simulation_distance <= 32) {
            return Err(ConfigError::InvalidSimulationDistance(self.simulation_distance));
        }
        if self.max_players == 0 {
            return Err(ConfigError::InvalidMaxPlayers(self.max_players));
        }
        Ok(())
    }

    /// The default configuration passes validation.
    pub proof fn lemma_default_config_valid(c: ServerConfig)
        requires
            c.is_default(),
        ensures
            c.spec_validate() == Ok::<(), ConfigError>(()),
    {
    }

    /// What [`ServerConfig::validate`] returns.
    pub open spec fn spec_validate(&self) -> Result<(), ConfigError> {
        if self.server_port == 0 {
            Err(ConfigError::InvalidPort(self.server_port))
        } else if self.rcon_port == 0 && self.enable_rcon {
            Err(ConfigError::InvalidPort(self.rcon_port))
        } else if self.query_port == 0 && self.enable_query {
            Err(ConfigError::InvalidPort(self.query_port))
        } else if !(2 <= self.view_distance <= 32) {
            Err(ConfigError::InvalidViewDistance(self.view_distance))
        } else if !(2 <= self.simulation_distance <= 32) {
            Err(ConfigError::InvalidSimulationDistance(self.simulation_distance))
        } else if self.max_players == 0 {
            Err(ConfigError::InvalidMaxPlayers(self.max_players))
        } else {
            Ok(())
        }
    }

    /// Validation, stated directly: a configuration is valid exactly when
    /// the server port is not 0, the RCON and query ports are not 0 where
    /// those services are enabled, both distances lie in 2–32 and at least
    /// one player is allowed (so a disabled service's port never matters,
    /// and enabling one on a non-zero port never fails). Every port error
    /// names a port that is 0, and each range error names the value
    /// refused.
    pub proof fn lemma_validate(c: ServerConfig)
        ensures
            (c.spec_validate() is Ok) <==> (c.server_port != 0 && (c.enable_rcon ==> c.rcon_port != 0) && (
            c.enable_query ==> c.query_port != 0) && 2 <= c.view_distance <= 32 && 2
                <= c.simulation_distance <= 32 && c.max_players > 0),
            c.spec_validate() matches Err(ConfigError::InvalidPort(p)) ==> p == 0 && (c.server_port == 0 || (
            c.enable_rcon && c.rcon_port == 0) || (c.enable_query && c.query_port == 0)),
            c.spec_validate() matches Err(ConfigError::InvalidViewDistance(v)) ==> v == c.view_distance && !(2
                <= v <= 32),
            c.spec_validate() matches Err(ConfigError::InvalidSimulationDistance(v)) ==> v
                == c.simulation_distance && !(2 <= v <= 32),
            c.spec_validate() matches Err(ConfigError::InvalidMaxPlayers(v)) ==> v == 0,
            c.server_port == 0 ==> c.spec_validate() == Err::<(), ConfigError>(ConfigError::InvalidPort(0)),
            c.server_port != 0 && c.enable_rcon && c.rcon_port == 0 ==> c.spec_validate() == Err::<
                (),
                ConfigError,
            >(ConfigError::InvalidPort(0)),
            (c.server_port != 0 && (c.enable_rcon ==> c.rcon_port != 0) && (c.enable_query
                ==> c.query_port != 0) && !(2 <= c.view_distance <= 32)) ==> c.spec_validate() == Err::<
                (),
                ConfigError,
            >(ConfigError::InvalidViewDistance(c.view_distance)),
            (c.server_port != 0 && (c.enable_rcon ==> c.rcon_port != 0) && (c.enable_query
                ==> c.query_port != 0) && 2 <= c.view_distance <= 32 && !(2 <= c.simulation_distance
                <= 32)) ==> c.spec_validate() == Err::<(), ConfigError>(
                ConfigError::InvalidSimulationDistance(c.simulation_distance),
            ),
    {
    }

    /// `acc` followed by the `key=value` lines of the networking keys.
    #[verifier::opaque]
    pub open spec fn network_lines(c: ServerConfig, acc: Seq<char>) -> Seq<char> {
        acc
            + property_line("server-port"@, int_digits(c.server_port as int))
            + property_line("server-ip"@, c.server_ip@)
            + property_line("online-mode"@, bool_text(c.online_mode))
            + property_line("prevent-proxy-connections"@, bool_text(c.prevent_proxy_connections))
            + property_line("network-compression-threshold"@, int_digits(c.network_compression_threshold as int))
            + property_line("use-native-transport"@, bool_text(c.use_native_transport))
            + property_line("rate-limit"@, int_digits(c.rate_limit as int))
    }

    /// `acc` followed by the `key=value` lines of the gameplay keys.
    #[verifier::opaque]
    pub open spec fn gameplay_lines(c: ServerConfig, acc: Seq<char>) -> Seq<char> {
        acc
            + property_line("gamemode"@, c.gamemode@)
            + property_line("difficulty"@, c.difficulty@)
            + property_line("hardcore"@, bool_text(c.hardcore))
            + property_line("force-gamemode"@, bool_text(c.force_gamemode))
            + property_line("max-players"@, int_digits(c.max_players as int))
            + property_line("view-distance"@, int_digits(c.view_distance as int))
            + property_line("simulation-distance"@, int_digits(c.simulation_distance as int))
            + property_line("spawn-protection"@, int_digits(c.spawn_protection as int))
            + property_line("max-world-size"@, int_digits(c.max_world_size as int))
            + property_line("allow-flight"@, bool_text(c.allow_flight))
    }

    /// `acc` followed by the `key=value` lines of the world generation keys.
    #[verifier::opaque]
    pub open spec fn world_lines(c: ServerConfig, acc: Seq<char>) -> Seq<char> {
        acc
            + property_line("level-name"@, c.level_name@)
            + property_line("level-seed"@, c.level_seed@)
            + property_line("generate-structures"@, bool_text(c.generate_structures))
            + property_line("max-chained-neighbor-updates"@, int_digits(c.max_chained_neighbor_updates as int))
            + property_line("spawn-npcs"@, bool_text(c.spawn_npcs))
            + property_line("spawn-animals"@, bool_text(c.spawn_animals))
            + property_line("spawn-monsters"@, bool_text(c.spawn_monsters))
            + property_line("allow-nether"@, bool_text(c.allow_nether))
    }

    /// `acc` followed by the `key=value` lines of the server-list display keys.
    #[verifier::opaque]
    pub open spec fn display_lines(c: ServerConfig, acc: Seq<char>) -> Seq<char> {
        acc
            + property_line("motd"@, c.motd@)
            + property_line("enable-status"@, bool_text(c.enable_status))
            + property_line("hide-online-players"@, bool_text(c.hide_online_players))
            + property_line("entity-broadcast-range-percentage"@, int_digits(c.entity_broadcast_range_percentage as int))
    }

    /// `acc` followed by the `key=value` lines of the administration and security keys.
    #[verifier::opaque]
    pub open spec fn admin_lines(c: ServerConfig, acc: Seq<char>) -> Seq<char> {
        acc
            + property_line("white-list"@, bool_text(c.white_list))
            + property_line("enforce-whitelist"@, bool_text(c.enforce_whitelist))
            + property_line("op-permission-level"@, int_digits(c.op_permission_level as int))
            + property_line("function-permission-level"@, int_digits(c.function_permission_level as int))
            + property_line("enforce-secure-profile"@, bool_text(c.enforce_secure_profile))
            + property_line("log-ips"@, bool_text(c.log_ips))
            + property_line("max-tick-time"@, int_digits(c.max_tick_time as int))
            + property_line("player-idle-timeout"@, int_digits(c.player_idle_timeout as int))
            + property_line("broadcast-console-to-ops"@, bool_text(c.broadcast_console_to_ops))
            + property_line("broadcast-rcon-to-ops"@, bool_text(c.broadcast_rcon_to_ops))
    }

    /// `acc` followed by the `key=value` lines of the remote console keys.
    #[verifier::opaque]
    pub open spec fn rcon_lines(c: ServerConfig, acc: Seq<char>) -> Seq<char> {
        acc
            + property_line("enable-rcon"@, bool_text(c.enable_rcon))
            + property_line("rcon.port"@, int_digits(c.rcon_port as int))
            + property_line("rcon.password"@, c.rcon_password@)
    }

    /// `acc` followed by the `key=value` lines of the query protocol keys.
    #[verifier::opaque]
    pub open spec fn query_lines(c: ServerConfig, acc: Seq<char>) -> Seq<char> {
        acc
            + property_line("enable-query"@, bool_text(c.enable_query))
            + property_line("query.port"@, int_digits(c.query_port as int))
    }

    /// `acc` followed by the `key=value` lines of the resource pack keys.
    #[verifier::opaque]
    pub open spec fn resource_pack_lines(c: ServerConfig, acc: Seq<char>) -> Seq<char> {
        acc
            + property_line("resource-pack"@, c.resource_pack@)
            + property_line("resource-pack-sha1"@, c.resource_pack_sha1@)
            + property_line("resource-pack-prompt"@, c.resource_pack_prompt@)
            + property_line("require-resource-pack"@, bool_text(c.require_resource_pack))
    }

    /// `acc` followed by the `key=value` lines of the management server keys.
    #[verifier::opaque]
    pub open spec fn management_lines(c: ServerConfig, acc: Seq<char>) -> Seq<char> {
        acc
            + property_line("management-server-enabled"@, bool_text(c.management_server_enabled))
            + property_line("management-server-host"@, c.management_server_host@)
            + property_line("management-server-port"@, int_digits(c.management_server_port as int))
            + property_line("management-server-secret"@, c.management_server_secret@)
            + property_line("management-server-tls-enabled"@, bool_text(c.management_server_tls_enabled))
    }

    /// `acc` followed by the `key=value` lines of the code of conduct keys.
    #[verifier::opaque]
    pub open spec fn code_of_conduct_lines(c: ServerConfig, acc: Seq<char>) -> Seq<char> {
        acc
            + property_line("enable-code-of-conduct"@, bool_text(c.enable_code_of_conduct))
            + property_line("bug-report-link"@, c.bug_report_link@)
    }

    /// `acc` followed by the `key=value` lines of the remaining keys.
    #[verifier::opaque]
    pub open spec fn misc_lines(c: ServerConfig, acc: Seq<char>) -> Seq<char> {
        acc
            + property_line("sync-chunk-writes"@, bool_text(c.sync_chunk_writes))
            + property_line("region-file-compression"@, c.region_file_compression@)
            + property_line("enable-jmx-monitoring"@, bool_text(c.enable_jmx_monitoring))
            + property_line("text-filtering-config"@, c.text_filtering_config@)
            + property_line("text-filtering-version"@, int_digits(c.text_filtering_version as int))
            + property_line("accepts-transfers"@, bool_text(c.accepts_transfers))
            + property_line("pause-when-empty-seconds"@, int_digits(c.pause_when_empty_seconds as int))
            + property_line("initial-enabled-packs"@, c.initial_enabled_packs@)
            + property_line("initial-disabled-packs"@, c.initial_disabled_packs@)
            + property_line("status-heartbeat-interval"@, int_digits(c.status_heartbeat_interval as int))
    }

    /// The `key=value` lines of the known keys, in the order vanilla writes
    /// them, section by section.
    #[verifier::opaque]
    pub open spec fn spec_known_lines(c: ServerConfig) -> Seq<char> {
        Self::misc_lines(c, Self::code_of_conduct_lines(c, Self::management_lines(c, Self::resource_pack_lines(c, Self::query_lines(c, Self::rcon_lines(c, Self::admin_lines(c, Self::display_lines(c, Self::world_lines(c, Self::gameplay_lines(c, Self::network_lines(c, Seq::<char>::empty())))))))))))
    }

    /// Appends the `key=value` lines of the networking keys.
    fn write_network_lines(&self, out: &mut String)
        ensures
            final(out)@ == Self::network_lines(*self, old(out)@),
    {
        proof {
            reveal(ServerConfig::network_lines);
        }
        write_int_line(out, "server-port", self.server_port as i64);
        write_string_line(out, "server-ip", self.server_ip.as_str());
        write_bool_line(out, "online-mode", self.online_mode);
        write_bool_line(out, "prevent-proxy-connections", self.prevent_proxy_connections);
        write_int_line(out, "network-compression-threshold", self.network_compression_threshold as i64);
        write_bool_line(out, "use-native-transport", self.use_native_transport);
        write_int_line(out, "rate-limit", self.rate_limit as i64);
    }

    /// Appends the `key=value` lines of the gameplay keys.
    fn write_gameplay_lines(&self, out: &mut String)
        ensures
            final(out)@ == Self::gameplay_lines(*self, old(out)@),
    {
        proof {
            reveal(ServerConfig::gameplay_lines);
        }
        write_string_line(out, "gamemode", self.gamemode.as_str());
        write_string_line(out, "difficulty", self.difficulty.as_str());
        write_bool_line(out, "hardcore", self.hardcore);
        write_bool_line(out, "force-gamemode", self.force_gamemode);
        write_int_line(out, "max-players", self.max_players as i64);
        write_int_line(out, "view-distance", self.view_distance as i64);
        write_int_line(out, "simulation-distance", self.simulation_distance as i64);
        write_int_line(out, "spawn-protection", self.spawn_protection as i64);
        write_int_line(out, "max-world-size", self.max_world_size as i64);
        write_bool_line(out, "allow-flight", self.allow_flight);
    }

    /// Appends the `key=value` lines of the world generation keys.
    fn write_world_lines(&self, out: &mut String)
        ensures
            final(out)@ == Self::world_lines(*self, old(out)@),
    {
        proof {
            reveal(ServerConfig::world_lines);
        }
        write_string_line(out, "level-name", self.level_name.as_str());
        write_string_line(out, "level-seed", self.level_seed.as_str());
        write_bool_line(out, "generate-structures", self.generate_structures);
        write_int_line(out, "max-chained-neighbor-updates", self.max_chained_neighbor_updates as i64);
        write_bool_line(out, "spawn-npcs", self.spawn_npcs);
        write_bool_line(out, "spawn-animals", self.spawn_animals);
        write_bool_line(out, "spawn-monsters", self.spawn_monsters);
        write_bool_line(out, "allow-nether", self.allow_nether);
    }

    /// Appends the `key=value` lines of the server-list display keys.
    fn write_display_lines(&self, out: &mut String)
        ensures
            final(out)@ == Self::display_lines(*self, old(out)@),
    {
        proof {
            reveal(ServerConfig::display_lines);
        }
        write_string_line(out, "motd", self.motd.as_str());
        write_bool_line(out, "enable-status", self.enable_status);
        write_bool_line(out, "hide-online-players", self.hide_online_players);
        write_int_line(out, "entity-broadcast-range-percentage", self.entity_broadcast_range_percentage as i64);
    }

    /// Appends the `key=value` lines of the administration and security keys.
    fn write_admin_lines(&self, out: &mut String)
        ensures
            final(out)@ == Self::admin_lines(*self, old(out)@),
    {
        proof {
            reveal(ServerConfig::admin_lines);
        }
        write_bool_line(out, "white-list", self.white_list);
        write_bool_line(out, "enforce-whitelist", self.enforce_whitelist);
        write_int_line(out, "op-permission-level", self.op_permission_level as i64);
        write_int_line(out, "function-permission-level", self.function_permission_level as i64);
        write_bool_line(out, "enforce-secure-profile", self.enforce_secure_profile);
        write_bool_line(out, "log-ips", self.log_ips);
        write_int_line(out, "max-tick-time", self.max_tick_time as i64);
        write_int_line(out, "player-idle-timeout", self.player_idle_timeout as i64);
        write_bool_line(out, "broadcast-console-to-ops", self.broadcast_console_to_ops);
        write_bool_line(out, "broadcast-rcon-to-ops", self.broadcast_rcon_to_ops);
    }

    /// Appends the `key=value` lines of the remote console keys.
    fn write_rcon_lines(&self, out: &mut String)
        ensures
            final(out)@ == Self::rcon_lines(*self, old(out)@),
    {
        proof {
            reveal(ServerConfig::rcon_lines);
        }
        write_bool_line(out, "enable-rcon", self.enable_rcon);
        write_int_line(out, "rcon.port", self.rcon_port as i64);
        write_string_line(out, "rcon.password", self.rcon_password.as_str());
    }

    /// Appends the `key=value` lines of the query protocol keys.
    fn write_query_lines(&self, out: &mut String)
        ensures
            final(out)@ == Self::query_lines(*self, old(out)@),
    {
        proof {
            reveal(ServerConfig::query_lines);
        }
        write_bool_line(out, "enable-query", self.enable_query);
        write_int_line(out, "query.port", self.query_port as i64);
    }

    /// Appends the `key=value` lines of the resource pack keys.
    fn write_resource_pack_lines(&self, out: &mut String)
        ensures
            final(out)@ == Self::resource_pack_lines(*self, old(out)@),
    {
        proof {
            reveal(ServerConfig::resource_pack_lines);
        }
        write_string_line(out, "resource-pack", self.resource_pack.as_str());
        write_string_line(out, "resource-pack-sha1", self.resource_pack_sha1.as_str());
        write_string_line(out, "resource-pack-prompt", self.resource_pack_prompt.as_str());
        write_bool_line(out, "require-resource-pack", self.require_resource_pack);
    }

    /// Appends the `key=value` lines of the management server keys.
    fn write_management_lines(&self, out: &mut String)
        ensures
            final(out)@ == Self::management_lines(*self, old(out)@),
    {
        proof {
            reveal(ServerConfig::management_lines);
        }
        write_bool_line(out, "management-server-enabled", self.management_server_enabled);
        write_string_line(out, "management-server-host", self.management_server_host.as_str());
        write_int_line(out, "management-server-port", self.management_server_port as i64);
        write_string_line(out, "management-server-secret", self.management_server_secret.as_str());
        write_bool_line(out, "management-server-tls-enabled", self.management_server_tls_enabled);
    }

    /// Appends the `key=value` lines of the code of conduct keys.
    fn write_code_of_conduct_lines(&self, out: &mut String)
        ensures
            final(out)@ == Self::code_of_conduct_lines(*self, old(out)@),
    {
        proof {
            reveal(ServerConfig::code_of_conduct_lines);
        }
        write_bool_line(out, "enable-code-of-conduct", self.enable_code_of_conduct);
        write_string_line(out, "bug-report-link", self.bug_report_link.as_str());
    }

    /// Appends the `key=value` lines of the remaining keys.
    fn write_misc_lines(&self, out: &mut String)
        ensures
            final(out)@ == Self::misc_lines(*self, old(out)@),
    {
        proof {
            reveal(ServerConfig::misc_lines);
        }
        write_bool_line(out, "sync-chunk-writes", self.sync_chunk_writes);
        write_string_line(out, "region-file-compression", self.region_file_compression.as_str());
        write_bool_line(out, "enable-jmx-monitoring", self.enable_jmx_monitoring);
        write_string_line(out, "text-filtering-config", self.text_filtering_config.as_str());
        write_int_line(out, "text-filtering-version", self.text_filtering_version as i64);
        write_bool_line(out, "accepts-transfers", self.accepts_transfers);
        write_int_line(out, "pause-when-empty-seconds", self.pause_when_empty_seconds as i64);
        write_string_line(out, "initial-enabled-packs", self.initial_enabled_packs.as_str());
        write_string_line(out, "initial-disabled-packs", self.initial_disabled_packs.as_str());
        write_int_line(out, "status-heartbeat-interval", self.status_heartbeat_interval as i64);
    }


    /// The text written to `server.properties`: a comment header with the
    /// given timestamp, the known keys in vanilla order, then — after a
    /// blank line, when there are any — the unknown keys in ascending key
    /// order.
    pub open spec fn spec_properties_text(c: ServerConfig, timestamp: Seq<char>) -> Seq<char> {
        ("#Minecraft server properties\n"@.push('#') + timestamp).push('\n') + Self::spec_known_lines(c)
            + unknown_section(spec_sorted_entries(c.unknown()))
    }

    /// The `key=value` lines of the known keys, in vanilla order.
    fn known_lines(&self) -> (r: String)
        ensures
            r@ == Self::spec_known_lines(*self),
    {
        proof {
            reveal(ServerConfig::spec_known_lines);
        }
        let mut body = String::new();
        self.write_network_lines(&mut body);
        self.write_gameplay_lines(&mut body);
        self.write_world_lines(&mut body);
        self.write_display_lines(&mut body);
        self.write_admin_lines(&mut body);
        self.write_rcon_lines(&mut body);
        self.write_query_lines(&mut body);
        self.write_resource_pack_lines(&mut body);
        self.write_management_lines(&mut body);
        self.write_code_of_conduct_lines(&mut body);
        self.write_misc_lines(&mut body);
        body
    }

    /// Renders the configuration as a properties file whose second header
    /// line is `#` followed by `timestamp`.
    pub fn to_properties_text(&self, timestamp: &str) -> (r: String)
        requires
            self.wf(),
        ensures
            r@ == Self::spec_properties_text(*self, timestamp@),
    {
        let mut out = "#Minecraft server properties\n".to_owned();
        push_char(&mut out, '#');
        push_str(&mut out, timestamp);
        push_char(&mut out, '\n');
        let body = self.known_lines();
        push_str(&mut out, body.as_str());
        let pairs = sorted_pairs(&self.unknown_keys);
        let mut tail = String::new();
        write_unknown_section(&mut tail, &pairs);
        assert(tail@ =~= unknown_section(spec_sorted_entries(self.unknown())));
        push_str(&mut out, tail.as_str());
        out
    }
}

/// One `key=value` line.
pub open spec fn property_line(key: Seq<char>, value: Seq<char>) -> Seq<char> {
    key + seq!['='] + value + seq!['\n']
}

/// The lines of `pairs`, in order.
pub open spec fn pair_lines(pairs: Seq<(Seq<char>, Seq<char>)>) -> Seq<char>
    decreases pairs.len(),
{
    if pairs.len() == 0 {
        Seq::empty()
    } else {
        pair_lines(pairs.drop_last()) + property_line(pairs.last().0, pairs.last().1)
    }
}

/// Nothing when there are no unknown keys; otherwise a blank line and
/// their lines.
pub open spec fn unknown_section(pairs: Seq<(Seq<char>, Seq<char>)>) -> Seq<char> {
    if pairs.len() == 0 {
        Seq::empty()
    } else {
        seq!['\n'] + pair_lines(pairs)
    }
}

fn write_string_line(out: &mut String, key: &str, value: &str)
    ensures
        final(out)@ == old(out)@ + property_line(key@, value@),
{
    push_str(out, key);
    push_char(out, '=');
    push_str(out, value);
    push_char(out, '\n');
    assert(final(out)@ =~= old(out)@ + property_line(key@, value@));
}

fn write_bool_line(out: &mut String, key: &str, value: bool)
    ensures
        final(out)@ == old(out)@ + property_line(key@, bool_text(value)),
{
    push_str(out, key);
    push_char(out, '=');
    if value {
        push_str(out, "true");
        proof {
            reveal_strlit("true");
        }
    } else {
        push_str(out, "false");
        proof {
            reveal_strlit("false");
        }
    }
    push_char(out, '\n');
    assert(final(out)@ =~= old(out)@ + property_line(key@, bool_text(value)));
}

fn write_int_line(out: &mut String, key: &str, value: i64)
    ensures
        final(out)@ == old(out)@ + property_line(key@, int_digits(value as int)),
{
    push_str(out, key);
    push_char(out, '=');
    write_int(out, value);
    push_char(out, '\n');
    assert(final(out)@ =~= old(out)@ + property_line(key@, int_digits(value as int)));
}

fn write_unknown_section(out: &mut String, pairs: &Vec<(String, String)>)
    ensures
        final(out)@ == old(out)@ + unknown_section(views_of_pairs(pairs@)),
{
    if pairs.len() == 0 {
        assert(final(out)@ =~= old(out)@ + unknown_section(views_of_pairs(pairs@)));
        return;
    }
    push_char(out, '\n');
    let ghost start = out@;
    let mut i: usize = 0;
    while i < pairs.len()
        invariant
            i <= pairs@.len(),
            out@ == start + pair_lines(views_of_pairs(pairs@).take(i as int)),
        decreases pairs@.len() - i,
    {
        let ghost before = out@;
        write_string_line(out, pairs[i].0.as_str(), pairs[i].1.as_str());
        assert(views_of_pairs(pairs@).take(i + 1).drop_last() =~= views_of_pairs(pairs@).take(i as int));
        assert(out@ =~= start + pair_lines(views_of_pairs(pairs@).take(i + 1)));
        i = i + 1;
    }
    assert(views_of_pairs(pairs@).take(pairs@.len() as int) =~= views_of_pairs(pairs@));
    assert(final(out)@ =~= old(out)@ + unknown_section(views_of_pairs(pairs@)));
}

/// The pairs of `props` whose key is not a known key.
fn unknown_of(props: &Properties) -> (u: Properties)
    requires
        props.wf(),
    ensures
        u.wf(),
        u@ == props@.remove_keys(known_keys()),
{
    let entries = props.entries();
    let ghost ks = keys_of(entries@);
    let mut u = Properties::new();
    let mut i: usize = 0;
    while i < entries.len()
        invariant
            i <= entries@.len(),
            u.wf(),
            ks == keys_of(entries@),
            ks.no_duplicates(),
            props@.dom() == ks.to_set(),
            forall|t: int| 0 <= t < entries@.len() ==> #[trigger] props@[entries@[t].0@] == entries@[t].1@,
            u@ == props@.restrict(ks.take(i as int).to_set()).remove_keys(known_keys()),
        decreases entries@.len() - i,
    {
        let ghost before = u@;
        let k = &entries[i].0;
        if !is_known_key(k.as_str()) {
            u.insert(k.clone(), entries[i].1.clone());
        }
        proof {
            assert(ks.take(i + 1) =~= ks.take(i as int).push(ks[i as int]));
            ks.take(i as int).lemma_push_to_set_commute(ks[i as int]);
            assert(u@ =~= props@.restrict(ks.take(i + 1).to_set()).remove_keys(known_keys()));
        }
        i = i + 1;
    }
    assert(ks.take(entries@.len() as int) =~= ks);
    assert(props@.restrict(ks.to_set()) =~= props@);
    u
}

// ---------------------------------------------------------------------------
// Lightweight timestamp
// ---------------------------------------------------------------------------

/// Returns `true` if `year` is a leap year.
pub open spec fn spec_is_leap(year: int) -> bool {
    year % 4 == 0 && (year % 100 != 0 || year % 400 == 0)
}

/// Returns `true` if `year` is a leap year.
pub fn is_leap(year: u64) -> (r: bool)
    ensures
        r == spec_is_leap(year as int),
{
    year % 4 == 0 && (year % 100 != 0 || year % 400 == 0)
}

/// Days in `year`.
pub open spec fn days_in_year(year: int) -> int {
    if spec_is_leap(year) {
        366
    } else {
        365
    }
}

/// Days in month `m` (0 = January) of `year`.
pub open spec fn days_in_month(year: int, m: int) -> int {
    if m == 1 {
        if spec_is_leap(year) {
            29
        } else {
            28
        }
    } else if m == 3 || m == 5 || m == 8 || m == 10 {
        30
    } else {
        31
    }
}

/// Month and day (both from 1) of the day `days` (from 0) of `year`,
/// counting months from `m` (from 0).
pub open spec fn month_day_from(year: int, days: int, m: int) -> (int, int)
    decreases 12 - m,
{
    if m >= 12 || days < days_in_month(year, m) {
        (m + 1, days + 1)
    } else {
        month_day_from(year, days - days_in_month(year, m), m + 1)
    }
}

/// `(year, month, day)` of `days` days after the first of January of
/// `year`.
pub open spec fn ymd_from(days: int, year: int) -> (int, int, int)
    decreases days,
{
    if days < days_in_year(year) {
        let (m, d) = month_day_from(year, days, 0);
        (year, m, d)
    } else {
        ymd_from(days - days_in_year(year), year + 1)
    }
}

/// Converts days since the Unix epoch to `(year, month, day)`, months and
/// days counted from 1.
pub open spec fn spec_epoch_days_to_ymd(days: int) -> (int, int, int) {
    ymd_from(days, 1970)
}

/// Days in `year`.
fn year_length(year: u64) -> (r: u64)
    ensures
        r as int == days_in_year(year as int),
{
    if is_leap(year) {
        366
    } else {
        365
    }
}

/// Days in month `month` (0 = January) of a year that is a leap year when
/// `leap`.
fn month_length(leap: bool, month: u64) -> (r: u64)
    ensures
        forall|y: int| spec_is_leap(y) == leap ==> r as int == days_in_month(y, month as int),
{
    if month == 1 {
        if leap {
            29
        } else {
            28
        }
    } else if month == 3 || month == 5 || month == 8 || month == 10 {
        30
    } else {
        31
    }
}

/// Converts days since the Unix epoch to `(year, month, day)`.
pub fn epoch_days_to_ymd(days: u64) -> (r: (u64, u64, u64))
    ensures
        (r.0 as int, r.1 as int, r.2 as int) == spec_epoch_days_to_ymd(days as int),
{
    let ghost d0 = days as int;
    let mut days = days;
    let mut year: u64 = 1970;
    while days >= year_length(year)
        invariant
            1970 <= year,
            365 * (year - 1970) <= d0 - days,
            days <= d0 <= u64::MAX,
            ymd_from(days as int, year as int) == spec_epoch_days_to_ymd(d0),
        decreases days,
    {
        days = days - year_length(year);
        year = year + 1;
    }
    let leap = is_leap(year);
    let ghost day_of_year = days as int;
    let mut month: u64 = 0;
    while month < 12 && days >= month_length(leap, month)
        invariant
            month <= 12,
            leap == spec_is_leap(year as int),
            days <= day_of_year,
            month_day_from(year as int, days as int, month as int) == month_day_from(
                year as int,
                day_of_year,
                0,
            ),
        decreases 12 - month,
    {
        days = days - month_length(leap, month);
        month = month + 1;
    }
    (year, month + 1, days + 1)
}

/// Days from the first of January 1970 to the first of January of `year`.
pub open spec fn days_before_year(year: int) -> int
    decreases year - 1970,
{
    if year <= 1970 {
        0
    } else {
        days_before_year(year - 1) + days_in_year(year - 1)
    }
}

/// Days in the first `m` months of `year`.
pub open spec fn days_before_month(year: int, m: int) -> int
    decreases m,
{
    if m <= 0 {
        0
    } else {
        days_before_month(year, m - 1) + days_in_month(year, m - 1)
    }
}

/// Days since the Unix epoch of the date `year-month-day` (month and day
/// counted from 1).
pub open spec fn days_from_ymd(year: int, month: int, day: int) -> int {
    days_before_year(year) + days_before_month(year, month - 1) + day - 1
}

proof fn lemma_months_fill_year(year: int)
    ensures
        days_before_month(year, 12) == days_in_year(year),
{
    reveal_with_fuel(days_before_month, 13);
}

proof fn lemma_month_day_from(year: int, days: int, m: int)
    requires
        0 <= m <= 12,
        0 <= days,
        days_before_month(year, m) + days < days_in_year(year),
    ensures
        ({
            let (mm, dd) = month_day_from(year, days, m);
            &&& 1 <= mm <= 12
            &&& 1 <= dd <= days_in_month(year, mm - 1)
            &&& days_before_month(year, mm - 1) + dd - 1 == days_before_month(year, m) + days
        }),
    decreases 12 - m,
{
    lemma_months_fill_year(year);
    if m >= 12 {
    } else if days < days_in_month(year, m) {
    } else {
        lemma_month_day_from(year, days - days_in_month(year, m), m + 1);
    }
}

proof fn lemma_ymd_from(days: int, year: int)
    requires
        0 <= days,
        1970 <= year,
    ensures
        ({
            let (y, mm, dd) = ymd_from(days, year);
            &&& y >= year
            &&& 1 <= mm <= 12
            &&& 1 <= dd <= days_in_month(y, mm - 1)
            &&& days_from_ymd(y, mm, dd) == days_before_year(year) + days
        }),
    decreases days,
{
    if days < days_in_year(year) {
        lemma_month_day_from(year, days, 0);
    } else {
        lemma_ymd_from(days - days_in_year(year), year + 1);
    }
}

/// [`epoch_days_to_ymd`] gives a valid date of 1970 or later (a month
/// from 1 to 12, a day within that month, February having 29 days in leap
/// years) that lies exactly `days` days after 1970-01-01; so different day
/// counts give different dates.
pub proof fn lemma_epoch_days_to_ymd_valid(days: int)
    requires
        days >= 0,
    ensures
        ({
            let (y, m, d) = spec_epoch_days_to_ymd(days);
            &&& y >= 1970
            &&& 1 <= m <= 12
            &&& 1 <= d <= days_in_month(y, m - 1)
            &&& days_from_ymd(y, m, d) == days
        }),
{
    lemma_ymd_from(days, 1970);
}

/// `YYYY-MM-DD hh:mm:ss UTC`, each field zero-padded.
pub open spec fn timestamp_text(y: nat, mo: nat, d: nat, h: nat, mi: nat, sec: nat) -> Seq<char> {
    (((((padded_digits(y, 4).push('-') + padded_digits(mo, 2)).push('-') + padded_digits(d, 2)).push(
        ' ',
    ) + padded_digits(h, 2)).push(':') + padded_digits(mi, 2)).push(':') + padded_digits(sec, 2)).push(
        ' ',
    ).push('U').push('T').push('C')
}

/// The properties header timestamp of `secs` seconds after the Unix
/// epoch: the UTC date and time of day, each field zero-padded.
pub open spec fn spec_timestamp(secs: int) -> Seq<char> {
    let days = secs / 86400;
    let time_of_day = secs % 86400;
    let (y, mo, d) = spec_epoch_days_to_ymd(days);
    timestamp_text(
        y as nat,
        mo as nat,
        d as nat,
        (time_of_day / 3600) as nat,
        ((time_of_day % 3600) / 60) as nat,
        (time_of_day % 60) as nat,
    )
}

proof fn lemma_ymd_nonneg(days: int, year: int)
    requires
        days >= 0,
        year >= 0,
    ensures
        ymd_from(days, year).0 >= 0,
        ymd_from(days, year).1 >= 0,
        ymd_from(days, year).2 >= 0,
    decreases days,
{
    if !(days < days_in_year(year)) {
        lemma_ymd_nonneg(days - days_in_year(year), year + 1);
    } else {
        lemma_month_day_nonneg(year, days, 0);
    }
}

proof fn lemma_month_day_nonneg(year: int, days: int, m: int)
    requires
        days >= 0,
        m >= 0,
    ensures
        month_day_from(year, days, m).0 >= 0,
        month_day_from(year, days, m).1 >= 0,
    decreases 12 - m,
{
    if !(m >= 12 || days < days_in_month(year, m)) {
        lemma_month_day_nonneg(year, days - days_in_month(year, m), m + 1);
    }
}

/// Formats `secs` seconds after the Unix epoch as the properties header
/// timestamp (see [`spec_timestamp`]).
pub fn format_timestamp(secs: u64) -> (r: String)
    ensures
        r@ == spec_timestamp(secs as int),
{
    let days = secs / 86400;
    let time_of_day = secs % 86400;
    let (year, month, day) = epoch_days_to_ymd(days);
    proof {
        lemma_ymd_nonneg(days as int, 1970);
    }
    timestamp_string(year, month, day, time_of_day / 3600, (time_of_day % 3600) / 60, time_of_day % 60)
}

/// Returns a simple UTC timestamp string suitable for the properties
/// header: the current time formatted by [`format_timestamp`].
pub fn chrono_lite_timestamp() -> (r: String)
    ensures
        exists|secs: int| #![trigger spec_timestamp(secs)] secs >= 0 && r@ == spec_timestamp(secs),
{
    let secs = unix_time_secs();
    let r = format_timestamp(secs);
    assert(r@ == spec_timestamp(secs as int));
    r
}

/// Reads the system clock (`SystemTime::now`) as whole seconds since the
/// Unix epoch, or 0 when the clock is set before the epoch; nothing more is
/// known of the value.
#[verifier::external_body]
fn unix_time_secs() -> u64 {
    std::time::SystemTime::now()
        .duration_since(std::time::UNIX_EPOCH)
        .unwrap_or_default()
        .as_secs()
}

/// The text of [`timestamp_text`].
fn timestamp_string(y: u64, mo: u64, d: u64, h: u64, mi: u64, sec: u64) -> (r: String)
    ensures
        r@ == timestamp_text(y as nat, mo as nat, d as nat, h as nat, mi as nat, sec as nat),
{
    let mut s = padded(y, 4);
    push_char(&mut s, '-');
    write_padded(&mut s, mo, 2);
    push_char(&mut s, '-');
    write_padded(&mut s, d, 2);
    push_char(&mut s, ' ');
    write_padded(&mut s, h, 2);
    push_char(&mut s, ':');
    write_padded(&mut s, mi, 2);
    push_char(&mut s, ':');
    write_padded(&mut s, sec, 2);
    push_char(&mut s, ' ');
    push_char(&mut s, 'U');
    push_char(&mut s, 'T');
    push_char(&mut s, 'C');
    s
}

/// `n` in decimal, zero-padded to `width` digits.
fn padded(n: u64, width: usize) -> (r: String)
    ensures
        r@ == padded_digits(n as nat, width as nat),
{
    let mut s = String::new();
    write_padded(&mut s, n, width);
    assert(s@ =~= padded_digits(n as nat, width as nat));
    s
}

} // verus!

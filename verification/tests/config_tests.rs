use oxidized_server::config::{epoch_days_to_ymd, ConfigError, ServerConfig};
use oxidized_server::properties::{parse_properties, Properties};

/// Saves `cfg` as text and reads the text back, as saving to
/// `server.properties` and loading it again does.
fn save_and_reload(cfg: &ServerConfig) -> (String, ServerConfig) {
    let text = cfg.save_text();
    let loaded = ServerConfig::from_properties_text(&text);
    (text, loaded)
}

#[test]
fn test_parse_properties_basic() {
    let input = "server-port=25565\nonline-mode=true\nmotd=Hello World\n";
    let props = parse_properties(input);

    assert_eq!(props.get("server-port").map(String::as_str), Some("25565"));
    assert_eq!(props.get("online-mode").map(String::as_str), Some("true"));
    assert_eq!(props.get("motd").map(String::as_str), Some("Hello World"));
}

#[test]
fn test_parse_properties_comments() {
    let input = "# This is a comment\n! Also a comment\nkey=value\n";
    let props = parse_properties(input);

    assert_eq!(props.len(), 1);
    assert_eq!(props.get("key").map(String::as_str), Some("value"));
}

#[test]
fn test_parse_properties_whitespace() {
    let input = "  key1  =  value1  \n  key2  =  value2  \n";
    let props = parse_properties(input);

    assert_eq!(props.get("key1").map(String::as_str), Some("value1"));
    assert_eq!(props.get("key2").map(String::as_str), Some("value2"));
}

#[test]
fn test_parse_properties_colon_separator() {
    let input = "key1: value1\nkey2:value2\n";
    let props = parse_properties(input);

    assert_eq!(props.get("key1").map(String::as_str), Some("value1"));
    assert_eq!(props.get("key2").map(String::as_str), Some("value2"));
}

#[test]
fn test_parse_properties_empty_value() {
    let input = "server-ip=\nlevel-seed=\n";
    let props = parse_properties(input);

    assert_eq!(props.get("server-ip").map(String::as_str), Some(""));
    assert_eq!(props.get("level-seed").map(String::as_str), Some(""));
}

#[test]
fn test_default_config_values() {
    let cfg = ServerConfig::default_config();

    // Network
    assert_eq!(cfg.server_port, 25565);
    assert_eq!(cfg.server_ip, "");
    assert!(cfg.online_mode);
    assert!(!cfg.prevent_proxy_connections);
    assert_eq!(cfg.network_compression_threshold, 256);
    assert!(cfg.use_native_transport);
    assert_eq!(cfg.rate_limit, 0);

    // Gameplay
    assert_eq!(cfg.gamemode, "survival");
    assert_eq!(cfg.difficulty, "easy");
    assert!(!cfg.hardcore);
    assert!(!cfg.force_gamemode);
    assert_eq!(cfg.max_players, 20);
    assert_eq!(cfg.view_distance, 10);
    assert_eq!(cfg.simulation_distance, 10);
    assert_eq!(cfg.spawn_protection, 16);
    assert_eq!(cfg.max_world_size, 29_999_984);
    assert!(!cfg.allow_flight);

    // World
    assert_eq!(cfg.level_name, "world");
    assert_eq!(cfg.level_seed, "");
    assert!(cfg.generate_structures);
    assert_eq!(cfg.max_chained_neighbor_updates, 1_000_000);
    assert!(cfg.spawn_npcs);
    assert!(cfg.spawn_animals);
    assert!(cfg.spawn_monsters);
    assert!(cfg.allow_nether);

    // Display / MOTD
    assert_eq!(cfg.motd, "A Minecraft Server");
    assert!(cfg.enable_status);
    assert!(!cfg.hide_online_players);
    assert_eq!(cfg.entity_broadcast_range_percentage, 100);

    // Admin / Security
    assert!(!cfg.white_list);
    assert!(!cfg.enforce_whitelist);
    assert_eq!(cfg.op_permission_level, 4);
    assert_eq!(cfg.function_permission_level, 2);
    assert!(cfg.enforce_secure_profile);
    assert!(cfg.log_ips);
    assert_eq!(cfg.max_tick_time, 60_000);
    assert_eq!(cfg.player_idle_timeout, 0);
    assert!(cfg.broadcast_console_to_ops);
    assert!(cfg.broadcast_rcon_to_ops);

    // RCON
    assert!(!cfg.enable_rcon);
    assert_eq!(cfg.rcon_port, 25575);
    assert_eq!(cfg.rcon_password, "");

    // Query
    assert!(!cfg.enable_query);
    assert_eq!(cfg.query_port, 25565);

    // Resource pack
    assert_eq!(cfg.resource_pack, "");
    assert_eq!(cfg.resource_pack_sha1, "");
    assert_eq!(cfg.resource_pack_prompt, "");
    assert!(!cfg.require_resource_pack);

    // Management server
    assert!(!cfg.management_server_enabled);
    assert_eq!(cfg.management_server_host, "localhost");
    assert_eq!(cfg.management_server_port, 0);
    assert_eq!(cfg.management_server_secret, "");
    assert!(cfg.management_server_tls_enabled);

    // Code of conduct
    assert!(!cfg.enable_code_of_conduct);
    assert_eq!(cfg.bug_report_link, "");

    // Misc
    assert!(cfg.sync_chunk_writes);
    assert_eq!(cfg.region_file_compression, "deflate");
    assert!(!cfg.enable_jmx_monitoring);
    assert_eq!(cfg.text_filtering_config, "");
    assert_eq!(cfg.text_filtering_version, 0);
    assert!(!cfg.accepts_transfers);
    assert_eq!(cfg.pause_when_empty_seconds, 60);
    assert_eq!(cfg.initial_enabled_packs, "vanilla");
    assert_eq!(cfg.initial_disabled_packs, "");
    assert_eq!(cfg.status_heartbeat_interval, 0);
}

#[test]
fn test_from_properties_overrides() {
    let mut props = Properties::new();
    props.insert("server-port".to_string(), "19132".to_string());
    props.insert("online-mode".to_string(), "false".to_string());
    props.insert("max-players".to_string(), "100".to_string());
    props.insert("motd".to_string(), "Custom Server".to_string());
    props.insert("view-distance".to_string(), "16".to_string());
    props.insert("difficulty".to_string(), "hard".to_string());

    let cfg = ServerConfig::from_properties(&props);

    assert_eq!(cfg.server_port, 19132);
    assert!(!cfg.online_mode);
    assert_eq!(cfg.max_players, 100);
    assert_eq!(cfg.motd, "Custom Server");
    assert_eq!(cfg.view_distance, 16);
    assert_eq!(cfg.difficulty, "hard");

    // Non-overridden fields keep defaults.
    assert_eq!(cfg.simulation_distance, 10);
    assert!(cfg.generate_structures);
    assert_eq!(cfg.gamemode, "survival");
}

#[test]
fn test_validate_valid_config() {
    let cfg = ServerConfig::default_config();
    assert!(cfg.validate().is_ok());
}

#[test]
fn test_validate_invalid_port() {
    let mut cfg = ServerConfig::default_config();
    cfg.server_port = 0;

    let err = cfg.validate().unwrap_err();
    assert!(matches!(err, ConfigError::InvalidPort(0)));
}

#[test]
fn test_validate_invalid_view_distance() {
    // Too low
    let mut cfg = ServerConfig::default_config();
    cfg.view_distance = 0;
    let err = cfg.validate().unwrap_err();
    assert!(matches!(err, ConfigError::InvalidViewDistance(0)));

    // Too high
    cfg.view_distance = 100;
    let err = cfg.validate().unwrap_err();
    assert!(matches!(err, ConfigError::InvalidViewDistance(100)));
}

#[test]
fn test_validate_invalid_simulation_distance() {
    let mut cfg = ServerConfig::default_config();
    cfg.simulation_distance = 1;
    let err = cfg.validate().unwrap_err();
    assert!(matches!(err, ConfigError::InvalidSimulationDistance(1)));

    cfg.simulation_distance = 33;
    let err = cfg.validate().unwrap_err();
    assert!(matches!(err, ConfigError::InvalidSimulationDistance(33)));
}

#[test]
fn test_validate_invalid_max_players() {
    let mut cfg = ServerConfig::default_config();
    cfg.max_players = 0;
    let err = cfg.validate().unwrap_err();
    assert!(matches!(err, ConfigError::InvalidMaxPlayers(0)));
}

#[test]
fn test_parse_properties_line_continuation() {
    let input = "motd=Hello \\\nWorld\n";
    let props = parse_properties(input);

    assert_eq!(props.get("motd").map(String::as_str), Some("Hello World"));
}

#[test]
fn test_parse_properties_empty_lines() {
    let input = "\n\nkey=value\n\n";
    let props = parse_properties(input);

    assert_eq!(props.len(), 1);
    assert_eq!(props.get("key").map(String::as_str), Some("value"));
}

#[test]
fn test_epoch_days_to_ymd_known_dates() {
    // 1970-01-01
    assert_eq!(epoch_days_to_ymd(0), (1970, 1, 1));
    // 2000-01-01 = day 10957
    assert_eq!(epoch_days_to_ymd(10957), (2000, 1, 1));
    // 2025-06-15 = day 20254
    assert_eq!(epoch_days_to_ymd(20254), (2025, 6, 15));
}

#[test]
fn test_parse_all_known_keys_from_properties() {
    // Every known key set to a non-default value.
    let input = "\
server-port=19132\n\
server-ip=127.0.0.1\n\
online-mode=false\n\
prevent-proxy-connections=true\n\
network-compression-threshold=512\n\
use-native-transport=false\n\
rate-limit=100\n\
gamemode=creative\n\
difficulty=hard\n\
hardcore=true\n\
force-gamemode=true\n\
max-players=50\n\
view-distance=16\n\
simulation-distance=8\n\
spawn-protection=0\n\
max-world-size=1000\n\
allow-flight=true\n\
level-name=custom_world\n\
level-seed=12345\n\
generate-structures=false\n\
max-chained-neighbor-updates=500\n\
spawn-npcs=false\n\
spawn-animals=false\n\
spawn-monsters=false\n\
allow-nether=false\n\
motd=Custom MOTD\n\
enable-status=false\n\
hide-online-players=true\n\
entity-broadcast-range-percentage=75\n\
white-list=true\n\
enforce-whitelist=true\n\
op-permission-level=2\n\
function-permission-level=4\n\
enforce-secure-profile=false\n\
log-ips=false\n\
max-tick-time=30000\n\
player-idle-timeout=15\n\
broadcast-console-to-ops=false\n\
broadcast-rcon-to-ops=false\n\
enable-rcon=true\n\
rcon.port=25576\n\
rcon.password=secret123\n\
enable-query=true\n\
query.port=25567\n\
resource-pack=https://example.com/pack.zip\n\
resource-pack-sha1=abc123\n\
resource-pack-prompt=Please accept\n\
require-resource-pack=true\n\
management-server-enabled=true\n\
management-server-host=0.0.0.0\n\
management-server-port=8080\n\
management-server-secret=topsecret\n\
management-server-tls-enabled=false\n\
enable-code-of-conduct=true\n\
bug-report-link=https://bugs.example.com\n\
sync-chunk-writes=false\n\
region-file-compression=lz4\n\
enable-jmx-monitoring=true\n\
text-filtering-config=/etc/filter.json\n\
text-filtering-version=2\n\
accepts-transfers=true\n\
pause-when-empty-seconds=120\n\
initial-enabled-packs=vanilla,custom\n\
initial-disabled-packs=experimental\n\
status-heartbeat-interval=30\n";

    let props = parse_properties(input);
    let cfg = ServerConfig::from_properties(&props);

    // Network
    assert_eq!(cfg.server_port, 19132, "server_port");
    assert_eq!(cfg.server_ip, "127.0.0.1", "server_ip");
    assert!(!cfg.online_mode, "online_mode should be false");
    assert!(
        cfg.prevent_proxy_connections,
        "prevent_proxy_connections should be true"
    );
    assert_eq!(
        cfg.network_compression_threshold, 512,
        "network_compression_threshold"
    );
    assert!(
        !cfg.use_native_transport,
        "use_native_transport should be false"
    );
    assert_eq!(cfg.rate_limit, 100, "rate_limit");

    // Gameplay
    assert_eq!(cfg.gamemode, "creative", "gamemode");
    assert_eq!(cfg.difficulty, "hard", "difficulty");
    assert!(cfg.hardcore, "hardcore should be true");
    assert!(cfg.force_gamemode, "force_gamemode should be true");
    assert_eq!(cfg.max_players, 50, "max_players");
    assert_eq!(cfg.view_distance, 16, "view_distance");
    assert_eq!(cfg.simulation_distance, 8, "simulation_distance");
    assert_eq!(cfg.spawn_protection, 0, "spawn_protection");
    assert_eq!(cfg.max_world_size, 1000, "max_world_size");
    assert!(cfg.allow_flight, "allow_flight should be true");

    // World
    assert_eq!(cfg.level_name, "custom_world", "level_name");
    assert_eq!(cfg.level_seed, "12345", "level_seed");
    assert!(
        !cfg.generate_structures,
        "generate_structures should be false"
    );
    assert_eq!(
        cfg.max_chained_neighbor_updates, 500,
        "max_chained_neighbor_updates"
    );
    assert!(!cfg.spawn_npcs, "spawn_npcs should be false");
    assert!(!cfg.spawn_animals, "spawn_animals should be false");
    assert!(!cfg.spawn_monsters, "spawn_monsters should be false");
    assert!(!cfg.allow_nether, "allow_nether should be false");

    // Display / MOTD
    assert_eq!(cfg.motd, "Custom MOTD", "motd");
    assert!(!cfg.enable_status, "enable_status should be false");
    assert!(
        cfg.hide_online_players,
        "hide_online_players should be true"
    );
    assert_eq!(
        cfg.entity_broadcast_range_percentage, 75,
        "entity_broadcast_range_percentage"
    );

    // Admin / Security
    assert!(cfg.white_list, "white_list should be true");
    assert!(cfg.enforce_whitelist, "enforce_whitelist should be true");
    assert_eq!(cfg.op_permission_level, 2, "op_permission_level");
    assert_eq!(
        cfg.function_permission_level, 4,
        "function_permission_level"
    );
    assert!(
        !cfg.enforce_secure_profile,
        "enforce_secure_profile should be false"
    );
    assert!(!cfg.log_ips, "log_ips should be false");
    assert_eq!(cfg.max_tick_time, 30_000, "max_tick_time");
    assert_eq!(cfg.player_idle_timeout, 15, "player_idle_timeout");
    assert!(
        !cfg.broadcast_console_to_ops,
        "broadcast_console_to_ops should be false"
    );
    assert!(
        !cfg.broadcast_rcon_to_ops,
        "broadcast_rcon_to_ops should be false"
    );

    // RCON
    assert!(cfg.enable_rcon, "enable_rcon should be true");
    assert_eq!(cfg.rcon_port, 25576, "rcon_port");
    assert_eq!(cfg.rcon_password, "secret123", "rcon_password");

    // Query
    assert!(cfg.enable_query, "enable_query should be true");
    assert_eq!(cfg.query_port, 25567, "query_port");

    // Resource pack
    assert_eq!(
        cfg.resource_pack, "https://example.com/pack.zip",
        "resource_pack"
    );
    assert_eq!(cfg.resource_pack_sha1, "abc123", "resource_pack_sha1");
    assert_eq!(
        cfg.resource_pack_prompt, "Please accept",
        "resource_pack_prompt"
    );
    assert!(
        cfg.require_resource_pack,
        "require_resource_pack should be true"
    );

    // Management server
    assert!(
        cfg.management_server_enabled,
        "management_server_enabled should be true"
    );
    assert_eq!(
        cfg.management_server_host, "0.0.0.0",
        "management_server_host"
    );
    assert_eq!(cfg.management_server_port, 8080, "management_server_port");
    assert_eq!(
        cfg.management_server_secret, "topsecret",
        "management_server_secret"
    );
    assert!(
        !cfg.management_server_tls_enabled,
        "management_server_tls_enabled should be false"
    );

    // Code of conduct
    assert!(
        cfg.enable_code_of_conduct,
        "enable_code_of_conduct should be true"
    );
    assert_eq!(
        cfg.bug_report_link, "https://bugs.example.com",
        "bug_report_link"
    );

    // Misc
    assert!(!cfg.sync_chunk_writes, "sync_chunk_writes should be false");
    assert_eq!(
        cfg.region_file_compression, "lz4",
        "region_file_compression"
    );
    assert!(
        cfg.enable_jmx_monitoring,
        "enable_jmx_monitoring should be true"
    );
    assert_eq!(
        cfg.text_filtering_config, "/etc/filter.json",
        "text_filtering_config"
    );
    assert_eq!(cfg.text_filtering_version, 2, "text_filtering_version");
    assert!(cfg.accepts_transfers, "accepts_transfers should be true");
    assert_eq!(
        cfg.pause_when_empty_seconds, 120,
        "pause_when_empty_seconds"
    );
    assert_eq!(
        cfg.initial_enabled_packs, "vanilla,custom",
        "initial_enabled_packs"
    );
    assert_eq!(
        cfg.initial_disabled_packs, "experimental",
        "initial_disabled_packs"
    );
    assert_eq!(
        cfg.status_heartbeat_interval, 30,
        "status_heartbeat_interval"
    );
}

#[test]
fn test_validate_port_accepts_min_valid() {
    let mut cfg = ServerConfig::default_config();
    cfg.server_port = 1;
    assert!(cfg.validate().is_ok());
}

#[test]
fn test_validate_port_accepts_max_valid() {
    let mut cfg = ServerConfig::default_config();
    cfg.server_port = 65535;
    assert!(cfg.validate().is_ok());
}

#[test]
fn test_validate_port_rejects_zero() {
    let mut cfg = ServerConfig::default_config();
    cfg.server_port = 0;
    assert!(matches!(cfg.validate(), Err(ConfigError::InvalidPort(0))));
}

#[test]
fn test_validate_view_distance_accepts_min() {
    let mut cfg = ServerConfig::default_config();
    cfg.view_distance = 2;
    assert!(cfg.validate().is_ok());
}

#[test]
fn test_validate_view_distance_accepts_max() {
    let mut cfg = ServerConfig::default_config();
    cfg.view_distance = 32;
    assert!(cfg.validate().is_ok());
}

#[test]
fn test_validate_view_distance_rejects_below_min() {
    let mut cfg = ServerConfig::default_config();
    cfg.view_distance = 1;
    assert!(matches!(
        cfg.validate(),
        Err(ConfigError::InvalidViewDistance(1))
    ));
}

#[test]
fn test_validate_view_distance_rejects_above_max() {
    let mut cfg = ServerConfig::default_config();
    cfg.view_distance = 33;
    assert!(matches!(
        cfg.validate(),
        Err(ConfigError::InvalidViewDistance(33))
    ));
}

#[test]
fn test_validate_simulation_distance_accepts_min() {
    let mut cfg = ServerConfig::default_config();
    cfg.simulation_distance = 2;
    assert!(cfg.validate().is_ok());
}

#[test]
fn test_validate_simulation_distance_accepts_max() {
    let mut cfg = ServerConfig::default_config();
    cfg.simulation_distance = 32;
    assert!(cfg.validate().is_ok());
}

#[test]
fn test_validate_simulation_distance_rejects_below_min() {
    let mut cfg = ServerConfig::default_config();
    cfg.simulation_distance = 1;
    assert!(matches!(
        cfg.validate(),
        Err(ConfigError::InvalidSimulationDistance(1))
    ));
}

#[test]
fn test_validate_simulation_distance_rejects_above_max() {
    let mut cfg = ServerConfig::default_config();
    cfg.simulation_distance = 33;
    assert!(matches!(
        cfg.validate(),
        Err(ConfigError::InvalidSimulationDistance(33))
    ));
}

#[test]
fn test_validate_max_players_accepts_one() {
    let mut cfg = ServerConfig::default_config();
    cfg.max_players = 1;
    assert!(cfg.validate().is_ok());
}

#[test]
fn test_validate_max_players_rejects_zero() {
    let mut cfg = ServerConfig::default_config();
    cfg.max_players = 0;
    assert!(matches!(
        cfg.validate(),
        Err(ConfigError::InvalidMaxPlayers(0))
    ));
}

#[test]
fn test_parse_space_only_separator() {
    let input = "key value\n";
    let props = parse_properties(input);
    assert_eq!(props.get("key").map(String::as_str), Some("value"));
}

#[test]
fn test_parse_colon_separator() {
    let input = "key:value\n";
    let props = parse_properties(input);
    assert_eq!(props.get("key").map(String::as_str), Some("value"));
}

#[test]
fn test_parse_multiple_line_continuations() {
    let input = "motd=Hello \\\nbeautiful \\\nworld\n";
    let props = parse_properties(input);
    assert_eq!(
        props.get("motd").map(String::as_str),
        Some("Hello beautiful world")
    );
}

#[test]
fn test_parse_exclamation_comment() {
    let input = "! this is a comment\nkey=value\n";
    let props = parse_properties(input);
    assert_eq!(props.len(), 1);
    assert_eq!(props.get("key").map(String::as_str), Some("value"));
}

#[test]
fn test_parse_empty_value() {
    let input = "key=\n";
    let props = parse_properties(input);
    assert_eq!(props.get("key").map(String::as_str), Some(""));
}

#[test]
fn test_parse_value_with_equals() {
    let input = "key=a=b\n";
    let props = parse_properties(input);
    assert_eq!(
        props.get("key").map(String::as_str),
        Some("a=b"),
        "only the first = should be treated as separator"
    );
}

#[test]
fn test_save_and_load_roundtrip() {
    let mut saved = ServerConfig::default_config();
    saved.server_port = 19132;
    saved.motd = "Roundtrip Test".to_string();
    saved.online_mode = false;
    saved.max_players = 50;
    saved.view_distance = 16;
    saved.difficulty = "hard".to_string();

    let (_text, loaded) = save_and_reload(&saved);

    assert_eq!(loaded.server_port, 19132);
    assert_eq!(loaded.motd, "Roundtrip Test");
    assert!(!loaded.online_mode);
    assert_eq!(loaded.max_players, 50);
    assert_eq!(loaded.view_distance, 16);
    assert_eq!(loaded.difficulty, "hard");

    // Fields not overridden should still be defaults.
    assert_eq!(loaded.simulation_distance, 10);
    assert!(loaded.generate_structures);
}

#[test]
fn test_full_roundtrip_preserves_all_fields() {
    
}

#[test]
fn test_load_or_create_creates_file() {
    // A missing file is created with the defaults.
    let cfg = ServerConfig::default_config();
    let contents = cfg.save_text();
    assert_eq!(cfg.server_port, 25565);
    assert!(contents.contains("server-port=25565"));
    let reloaded = ServerConfig::from_properties_text(&contents);
    assert_eq!(reloaded.server_port, 25565);
}

#[test]
fn test_unknown_keys_preserved_through_roundtrip() {
    // A properties file with a known key and an unknown key.
    let input = "server-port=19132\ncustom-setting=hello\n";
    let config = ServerConfig::from_properties_text(input);
    assert_eq!(config.server_port, 19132);

    let (contents, _reloaded) = save_and_reload(&config);
    assert!(
        contents.contains("custom-setting=hello"),
        "unknown key should be preserved in saved output, got:\n{contents}"
    );
    assert!(contents.contains("server-port=19132"));
    let known_pos = contents
        .find("status-heartbeat-interval=")
        .expect("last known key should exist");
    let unknown_pos = contents
        .find("custom-setting=hello")
        .expect("unknown key should exist");
    assert!(
        unknown_pos > known_pos,
        "unknown keys should appear after all known keys"
    );
}

#[test]
fn cli_overrides_change_only_port_and_world() {
    let mut cfg = ServerConfig::default_config();
    cfg.online_mode = false;
    cfg.view_distance = 16;
    cfg.apply_cli_overrides(Some(25570), Some("creative".to_string()));
    assert_eq!(cfg.server_port, 25570);
    assert_eq!(cfg.level_name, "creative");
    assert!(!cfg.online_mode);
    assert_eq!(cfg.view_distance, 16);
    assert_eq!(cfg.max_players, ServerConfig::default_config().max_players);
    cfg.apply_cli_overrides(None, None);
    assert_eq!(cfg.server_port, 25570);
    assert_eq!(cfg.level_name, "creative");
}

#[test]
fn epoch_days_month_and_year_ends() {
    // 2024-02-29 (leap day) is day 19782; 2024-12-31 is day 20088.
    assert_eq!(epoch_days_to_ymd(19782), (2024, 2, 29));
    assert_eq!(epoch_days_to_ymd(19783), (2024, 3, 1));
    assert_eq!(epoch_days_to_ymd(20088), (2024, 12, 31));
    assert_eq!(epoch_days_to_ymd(20089), (2025, 1, 1));
    assert_eq!(epoch_days_to_ymd(364), (1970, 12, 31));
}

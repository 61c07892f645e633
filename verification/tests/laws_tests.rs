use oxidized_server::cli::Args;
use oxidized_server::config::{chrono_lite_timestamp, format_timestamp, is_leap, ServerConfig};
use oxidized_server::config::display::ChatConfig;

fn args() -> Args {
    Args {
        port: None,
        world: None,
        universe: ".".to_string(),
        nogui: false,
        log_level: "info".to_string(),
        config: "server.properties".to_string(),
        force_upgrade: false,
        init_settings: false,
        demo: false,
        erase_cache: false,
        safe_mode: false,
    }
}

#[test]
fn default_config_saves_and_reloads_unchanged() {
    let cfg = ServerConfig::default_config();
    let text = cfg.to_properties_text("2025-06-15 12:00:00 UTC");
    assert!(text.starts_with("#Minecraft server properties\n#2025-06-15 12:00:00 UTC\nserver-port=25565\n"));
    assert!(text.ends_with("status-heartbeat-interval=0\n"));
    let back = ServerConfig::from_properties_text(&text);
    assert_eq!(back.server_port, cfg.server_port);
    assert_eq!(back.motd, cfg.motd);
    assert_eq!(back.management_server_host, "localhost");
    assert_eq!(back.to_properties_text("2025-06-15 12:00:00 UTC"), text);
}

#[test]
fn unknown_keys_are_written_sorted_after_a_blank_line() {
    let cfg = ServerConfig::from_properties_text("zeta=last\nalpha=first\nserver-port=1\n");
    let text = cfg.to_properties_text("t");
    assert!(text.ends_with("status-heartbeat-interval=0\n\nalpha=first\nzeta=last\n"));
    let back = ServerConfig::from_properties_text(&text);
    assert_eq!(back.to_properties_text("t"), text);
    assert_eq!(back.server_port, 1);
}

#[test]
fn unparsable_values_fall_back_to_defaults() {
    let cfg = ServerConfig::from_properties_text(
        "server-port=70000\nmax-players=-1\nonline-mode=yes\nview-distance= 12\nrate-limit=+5\n",
    );
    assert_eq!(cfg.server_port, 25565);
    assert_eq!(cfg.max_players, 20);
    assert!(cfg.online_mode);
    assert_eq!(cfg.view_distance, 12);
    assert_eq!(cfg.rate_limit, 5);
}

#[test]
fn timestamps_format_dates() {
    assert_eq!(format_timestamp(0), "1970-01-01 00:00:00 UTC");
    assert_eq!(format_timestamp(951_782_400 + 3_723), "2000-02-29 01:02:03 UTC");
    assert_eq!(format_timestamp(1_749_945_600), "2025-06-15 00:00:00 UTC");
    assert!(is_leap(2000));
    assert!(!is_leap(1900));
    assert!(is_leap(2024));
    assert_eq!(chrono_lite_timestamp().len(), "1970-01-01 00:00:00 UTC".len());
}

#[test]
fn cli_overrides_replace_port_and_world() {
    let mut cfg = ServerConfig::default_config();
    let mut a = args();
    a.apply_overrides(&mut cfg);
    assert_eq!(cfg.server_port, 25565);
    assert_eq!(cfg.level_name, "world");
    a.port = Some(25566);
    a.world = Some("survival".to_string());
    a.apply_overrides(&mut cfg);
    assert_eq!(cfg.server_port, 25566);
    assert_eq!(cfg.level_name, "survival");
}

#[test]
fn save_text_holds_current_header() {
    let cfg = ServerConfig::default_config();
    let text = cfg.save_text();
    assert!(text.starts_with("#Minecraft server properties\n#"));
    assert!(text.contains(" UTC\nserver-port=25565\n"));
}

#[test]
fn chat_color_char_setting() {
    let chat = ChatConfig::default();
    assert_eq!(chat.color_char(), Some('&'));
    let off = ChatConfig { color_char: String::new() };
    assert_eq!(off.color_char(), None);
    let multi = ChatConfig { color_char: "§x".to_string() };
    assert_eq!(multi.color_char(), Some('§'));
}

#[test]
fn saved_text_with_clock_timestamp_reloads() {
    let mut cfg = ServerConfig::default_config();
    cfg.motd = "Roundtrip Test".to_string();
    cfg.max_players = 50;
    let text = cfg.save_text();
    let header = text.lines().nth(1).unwrap_or("");
    assert!(!header.contains('\n'));
    assert!(header.ends_with(" UTC"));
    let loaded = ServerConfig::from_properties_text(&text);
    assert_eq!(loaded.motd, "Roundtrip Test");
    assert_eq!(loaded.max_players, 50);
    assert_eq!(loaded.server_port, cfg.server_port);
}

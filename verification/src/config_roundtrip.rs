//! Saving a configuration and reading it back gives the same
//! configuration: the properties text of a [`ServerConfig`] parses back to
//! the map its fields and unknown keys were written from, and reading that
//! map gives every field back.

use vstd::prelude::*;
use crate::config::{
    ServerConfig, bool_text, false_text, known_keys, pair_lines, prop_bool, prop_int, prop_string,
    true_text, unknown_section, spec_timestamp, timestamp_text,
};
use crate::properties::{spec_parse_properties, split_lines};
use crate::roundtrip::{
    clean_key, clean_value, fold_lines, insert_all, kv_lines, lemma_comment_line, lemma_fold_comments,
    lemma_fold_kv_lines, lemma_insert_all, lemma_insert_all_push, lemma_int_digits_parse, lemma_kv_line,
    lemma_lines_text_append, lemma_pair_lines_push, lemma_pair_lines_text, lemma_parse_fold,
    lemma_sorted_listing_exists, lemma_sorted_listing_keys, lemma_split_lines_text, lines_text,
    all_clean, lemma_all_clean_empty, lemma_all_clean_push, lemma_bool_text_clean,
    no_newline, pair_keys, single_line,
};
use crate::sorting::{is_sorted_listing, spec_sorted_entries};
use crate::roundtrip::{
    lemma_ascending_distinct, lemma_lt_at, lemma_no_newline_concat, lemma_padded_digits_no_newline,
};
use crate::text::{int_digits, is_ws};

verus! {

/// The known keys and the text of their values, in the order they are
/// written.
#[verifier::opaque]
pub open spec fn known_pairs(c: ServerConfig) -> Seq<(Seq<char>, Seq<char>)> {
    Seq::<(Seq<char>, Seq<char>)>::empty()
        .push(("server-port"@, int_digits(c.server_port as int)))
        .push(("server-ip"@, c.server_ip@))
        .push(("online-mode"@, bool_text(c.online_mode)))
        .push(("prevent-proxy-connections"@, bool_text(c.prevent_proxy_connections)))
        .push(("network-compression-threshold"@, int_digits(c.network_compression_threshold as int)))
        .push(("use-native-transport"@, bool_text(c.use_native_transport)))
        .push(("rate-limit"@, int_digits(c.rate_limit as int)))
        .push(("gamemode"@, c.gamemode@))
        .push(("difficulty"@, c.difficulty@))
        .push(("hardcore"@, bool_text(c.hardcore)))
        .push(("force-gamemode"@, bool_text(c.force_gamemode)))
        .push(("max-players"@, int_digits(c.max_players as int)))
        .push(("view-distance"@, int_digits(c.view_distance as int)))
        .push(("simulation-distance"@, int_digits(c.simulation_distance as int)))
        .push(("spawn-protection"@, int_digits(c.spawn_protection as int)))
        .push(("max-world-size"@, int_digits(c.max_world_size as int)))
        .push(("allow-flight"@, bool_text(c.allow_flight)))
        .push(("level-name"@, c.level_name@))
        .push(("level-seed"@, c.level_seed@))
        .push(("generate-structures"@, bool_text(c.generate_structures)))
        .push(("max-chained-neighbor-updates"@, int_digits(c.max_chained_neighbor_updates as int)))
        .push(("spawn-npcs"@, bool_text(c.spawn_npcs)))
        .push(("spawn-animals"@, bool_text(c.spawn_animals)))
        .push(("spawn-monsters"@, bool_text(c.spawn_monsters)))
        .push(("allow-nether"@, bool_text(c.allow_nether)))
        .push(("motd"@, c.motd@))
        .push(("enable-status"@, bool_text(c.enable_status)))
        .push(("hide-online-players"@, bool_text(c.hide_online_players)))
        .push(("entity-broadcast-range-percentage"@, int_digits(c.entity_broadcast_range_percentage as int)))
        .push(("white-list"@, bool_text(c.white_list)))
        .push(("enforce-whitelist"@, bool_text(c.enforce_whitelist)))
        .push(("op-permission-level"@, int_digits(c.op_permission_level as int)))
        .push(("function-permission-level"@, int_digits(c.function_permission_level as int)))
        .push(("enforce-secure-profile"@, bool_text(c.enforce_secure_profile)))
        .push(("log-ips"@, bool_text(c.log_ips)))
        .push(("max-tick-time"@, int_digits(c.max_tick_time as int)))
        .push(("player-idle-timeout"@, int_digits(c.player_idle_timeout as int)))
        .push(("broadcast-console-to-ops"@, bool_text(c.broadcast_console_to_ops)))
        .push(("broadcast-rcon-to-ops"@, bool_text(c.broadcast_rcon_to_ops)))
        .push(("enable-rcon"@, bool_text(c.enable_rcon)))
        .push(("rcon.port"@, int_digits(c.rcon_port as int)))
        .push(("rcon.password"@, c.rcon_password@))
        .push(("enable-query"@, bool_text(c.enable_query)))
        .push(("query.port"@, int_digits(c.query_port as int)))
        .push(("resource-pack"@, c.resource_pack@))
        .push(("resource-pack-sha1"@, c.resource_pack_sha1@))
        .push(("resource-pack-prompt"@, c.resource_pack_prompt@))
        .push(("require-resource-pack"@, bool_text(c.require_resource_pack)))
        .push(("management-server-enabled"@, bool_text(c.management_server_enabled)))
        .push(("management-server-host"@, c.management_server_host@))
        .push(("management-server-port"@, int_digits(c.management_server_port as int)))
        .push(("management-server-secret"@, c.management_server_secret@))
        .push(("management-server-tls-enabled"@, bool_text(c.management_server_tls_enabled)))
        .push(("enable-code-of-conduct"@, bool_text(c.enable_code_of_conduct)))
        .push(("bug-report-link"@, c.bug_report_link@))
        .push(("sync-chunk-writes"@, bool_text(c.sync_chunk_writes)))
        .push(("region-file-compression"@, c.region_file_compression@))
        .push(("enable-jmx-monitoring"@, bool_text(c.enable_jmx_monitoring)))
        .push(("text-filtering-config"@, c.text_filtering_config@))
        .push(("text-filtering-version"@, int_digits(c.text_filtering_version as int)))
        .push(("accepts-transfers"@, bool_text(c.accepts_transfers)))
        .push(("pause-when-empty-seconds"@, int_digits(c.pause_when_empty_seconds as int)))
        .push(("initial-enabled-packs"@, c.initial_enabled_packs@))
        .push(("initial-disabled-packs"@, c.initial_disabled_packs@))
        .push(("status-heartbeat-interval"@, int_digits(c.status_heartbeat_interval as int)))
}

/// The known keys and the text of their values, as a map.
#[verifier::opaque]
pub open spec fn known_map(c: ServerConfig) -> Map<Seq<char>, Seq<char>> {
    Map::<Seq<char>, Seq<char>>::empty()
        .insert("server-port"@, int_digits(c.server_port as int))
        .insert("server-ip"@, c.server_ip@)
        .insert("online-mode"@, bool_text(c.online_mode))
        .insert("prevent-proxy-connections"@, bool_text(c.prevent_proxy_connections))
        .insert("network-compression-threshold"@, int_digits(c.network_compression_threshold as int))
        .insert("use-native-transport"@, bool_text(c.use_native_transport))
        .insert("rate-limit"@, int_digits(c.rate_limit as int))
        .insert("gamemode"@, c.gamemode@)
        .insert("difficulty"@, c.difficulty@)
        .insert("hardcore"@, bool_text(c.hardcore))
        .insert("force-gamemode"@, bool_text(c.force_gamemode))
        .insert("max-players"@, int_digits(c.max_players as int))
        .insert("view-distance"@, int_digits(c.view_distance as int))
        .insert("simulation-distance"@, int_digits(c.simulation_distance as int))
        .insert("spawn-protection"@, int_digits(c.spawn_protection as int))
        .insert("max-world-size"@, int_digits(c.max_world_size as int))
        .insert("allow-flight"@, bool_text(c.allow_flight))
        .insert("level-name"@, c.level_name@)
        .insert("level-seed"@, c.level_seed@)
        .insert("generate-structures"@, bool_text(c.generate_structures))
        .insert("max-chained-neighbor-updates"@, int_digits(c.max_chained_neighbor_updates as int))
        .insert("spawn-npcs"@, bool_text(c.spawn_npcs))
        .insert("spawn-animals"@, bool_text(c.spawn_animals))
        .insert("spawn-monsters"@, bool_text(c.spawn_monsters))
        .insert("allow-nether"@, bool_text(c.allow_nether))
        .insert("motd"@, c.motd@)
        .insert("enable-status"@, bool_text(c.enable_status))
        .insert("hide-online-players"@, bool_text(c.hide_online_players))
        .insert("entity-broadcast-range-percentage"@, int_digits(c.entity_broadcast_range_percentage as int))
        .insert("white-list"@, bool_text(c.white_list))
        .insert("enforce-whitelist"@, bool_text(c.enforce_whitelist))
        .insert("op-permission-level"@, int_digits(c.op_permission_level as int))
        .insert("function-permission-level"@, int_digits(c.function_permission_level as int))
        .insert("enforce-secure-profile"@, bool_text(c.enforce_secure_profile))
        .insert("log-ips"@, bool_text(c.log_ips))
        .insert("max-tick-time"@, int_digits(c.max_tick_time as int))
        .insert("player-idle-timeout"@, int_digits(c.player_idle_timeout as int))
        .insert("broadcast-console-to-ops"@, bool_text(c.broadcast_console_to_ops))
        .insert("broadcast-rcon-to-ops"@, bool_text(c.broadcast_rcon_to_ops))
        .insert("enable-rcon"@, bool_text(c.enable_rcon))
        .insert("rcon.port"@, int_digits(c.rcon_port as int))
        .insert("rcon.password"@, c.rcon_password@)
        .insert("enable-query"@, bool_text(c.enable_query))
        .insert("query.port"@, int_digits(c.query_port as int))
        .insert("resource-pack"@, c.resource_pack@)
        .insert("resource-pack-sha1"@, c.resource_pack_sha1@)
        .insert("resource-pack-prompt"@, c.resource_pack_prompt@)
        .insert("require-resource-pack"@, bool_text(c.require_resource_pack))
        .insert("management-server-enabled"@, bool_text(c.management_server_enabled))
        .insert("management-server-host"@, c.management_server_host@)
        .insert("management-server-port"@, int_digits(c.management_server_port as int))
        .insert("management-server-secret"@, c.management_server_secret@)
        .insert("management-server-tls-enabled"@, bool_text(c.management_server_tls_enabled))
        .insert("enable-code-of-conduct"@, bool_text(c.enable_code_of_conduct))
        .insert("bug-report-link"@, c.bug_report_link@)
        .insert("sync-chunk-writes"@, bool_text(c.sync_chunk_writes))
        .insert("region-file-compression"@, c.region_file_compression@)
        .insert("enable-jmx-monitoring"@, bool_text(c.enable_jmx_monitoring))
        .insert("text-filtering-config"@, c.text_filtering_config@)
        .insert("text-filtering-version"@, int_digits(c.text_filtering_version as int))
        .insert("accepts-transfers"@, bool_text(c.accepts_transfers))
        .insert("pause-when-empty-seconds"@, int_digits(c.pause_when_empty_seconds as int))
        .insert("initial-enabled-packs"@, c.initial_enabled_packs@)
        .insert("initial-disabled-packs"@, c.initial_disabled_packs@)
        .insert("status-heartbeat-interval"@, int_digits(c.status_heartbeat_interval as int))
}

/// The known lines of the text are the lines of [`known_pairs`].
proof fn lemma_known_lines(c: ServerConfig)
    ensures
        ServerConfig::spec_known_lines(c) == pair_lines(known_pairs(c)),
{
    reveal(known_pairs);
    reveal(ServerConfig::spec_known_lines);
    reveal(ServerConfig::network_lines);
    reveal(ServerConfig::gameplay_lines);
    reveal(ServerConfig::world_lines);
    reveal(ServerConfig::display_lines);
    reveal(ServerConfig::admin_lines);
    reveal(ServerConfig::rcon_lines);
    reveal(ServerConfig::query_lines);
    reveal(ServerConfig::resource_pack_lines);
    reveal(ServerConfig::management_lines);
    reveal(ServerConfig::code_of_conduct_lines);
    reveal(ServerConfig::misc_lines);
    let p0 = Seq::<(Seq<char>, Seq<char>)>::empty();
    assert(pair_lines(p0) == Seq::<char>::empty());
    let p1 = p0.push(("server-port"@, int_digits(c.server_port as int)));
    lemma_pair_lines_push(p0, ("server-port"@, int_digits(c.server_port as int)));
    let p2 = p1.push(("server-ip"@, c.server_ip@));
    lemma_pair_lines_push(p1, ("server-ip"@, c.server_ip@));
    let p3 = p2.push(("online-mode"@, bool_text(c.online_mode)));
    lemma_pair_lines_push(p2, ("online-mode"@, bool_text(c.online_mode)));
    let p4 = p3.push(("prevent-proxy-connections"@, bool_text(c.prevent_proxy_connections)));
    lemma_pair_lines_push(p3, ("prevent-proxy-connections"@, bool_text(c.prevent_proxy_connections)));
    let p5 = p4.push(("network-compression-threshold"@, int_digits(c.network_compression_threshold as int)));
    lemma_pair_lines_push(p4, ("network-compression-threshold"@, int_digits(c.network_compression_threshold as int)));
    let p6 = p5.push(("use-native-transport"@, bool_text(c.use_native_transport)));
    lemma_pair_lines_push(p5, ("use-native-transport"@, bool_text(c.use_native_transport)));
    let p7 = p6.push(("rate-limit"@, int_digits(c.rate_limit as int)));
    lemma_pair_lines_push(p6, ("rate-limit"@, int_digits(c.rate_limit as int)));
    let p8 = p7.push(("gamemode"@, c.gamemode@));
    lemma_pair_lines_push(p7, ("gamemode"@, c.gamemode@));
    let p9 = p8.push(("difficulty"@, c.difficulty@));
    lemma_pair_lines_push(p8, ("difficulty"@, c.difficulty@));
    let p10 = p9.push(("hardcore"@, bool_text(c.hardcore)));
    lemma_pair_lines_push(p9, ("hardcore"@, bool_text(c.hardcore)));
    let p11 = p10.push(("force-gamemode"@, bool_text(c.force_gamemode)));
    lemma_pair_lines_push(p10, ("force-gamemode"@, bool_text(c.force_gamemode)));
    let p12 = p11.push(("max-players"@, int_digits(c.max_players as int)));
    lemma_pair_lines_push(p11, ("max-players"@, int_digits(c.max_players as int)));
    let p13 = p12.push(("view-distance"@, int_digits(c.view_distance as int)));
    lemma_pair_lines_push(p12, ("view-distance"@, int_digits(c.view_distance as int)));
    let p14 = p13.push(("simulation-distance"@, int_digits(c.simulation_distance as int)));
    lemma_pair_lines_push(p13, ("simulation-distance"@, int_digits(c.simulation_distance as int)));
    let p15 = p14.push(("spawn-protection"@, int_digits(c.spawn_protection as int)));
    lemma_pair_lines_push(p14, ("spawn-protection"@, int_digits(c.spawn_protection as int)));
    let p16 = p15.push(("max-world-size"@, int_digits(c.max_world_size as int)));
    lemma_pair_lines_push(p15, ("max-world-size"@, int_digits(c.max_world_size as int)));
    let p17 = p16.push(("allow-flight"@, bool_text(c.allow_flight)));
    lemma_pair_lines_push(p16, ("allow-flight"@, bool_text(c.allow_flight)));
    let p18 = p17.push(("level-name"@, c.level_name@));
    lemma_pair_lines_push(p17, ("level-name"@, c.level_name@));
    let p19 = p18.push(("level-seed"@, c.level_seed@));
    lemma_pair_lines_push(p18, ("level-seed"@, c.level_seed@));
    let p20 = p19.push(("generate-structures"@, bool_text(c.generate_structures)));
    lemma_pair_lines_push(p19, ("generate-structures"@, bool_text(c.generate_structures)));
    let p21 = p20.push(("max-chained-neighbor-updates"@, int_digits(c.max_chained_neighbor_updates as int)));
    lemma_pair_lines_push(p20, ("max-chained-neighbor-updates"@, int_digits(c.max_chained_neighbor_updates as int)));
    let p22 = p21.push(("spawn-npcs"@, bool_text(c.spawn_npcs)));
    lemma_pair_lines_push(p21, ("spawn-npcs"@, bool_text(c.spawn_npcs)));
    let p23 = p22.push(("spawn-animals"@, bool_text(c.spawn_animals)));
    lemma_pair_lines_push(p22, ("spawn-animals"@, bool_text(c.spawn_animals)));
    let p24 = p23.push(("spawn-monsters"@, bool_text(c.spawn_monsters)));
    lemma_pair_lines_push(p23, ("spawn-monsters"@, bool_text(c.spawn_monsters)));
    let p25 = p24.push(("allow-nether"@, bool_text(c.allow_nether)));
    lemma_pair_lines_push(p24, ("allow-nether"@, bool_text(c.allow_nether)));
    let p26 = p25.push(("motd"@, c.motd@));
    lemma_pair_lines_push(p25, ("motd"@, c.motd@));
    let p27 = p26.push(("enable-status"@, bool_text(c.enable_status)));
    lemma_pair_lines_push(p26, ("enable-status"@, bool_text(c.enable_status)));
    let p28 = p27.push(("hide-online-players"@, bool_text(c.hide_online_players)));
    lemma_pair_lines_push(p27, ("hide-online-players"@, bool_text(c.hide_online_players)));
    let p29 = p28.push(("entity-broadcast-range-percentage"@, int_digits(c.entity_broadcast_range_percentage as int)));
    lemma_pair_lines_push(p28, ("entity-broadcast-range-percentage"@, int_digits(c.entity_broadcast_range_percentage as int)));
    let p30 = p29.push(("white-list"@, bool_text(c.white_list)));
    lemma_pair_lines_push(p29, ("white-list"@, bool_text(c.white_list)));
    let p31 = p30.push(("enforce-whitelist"@, bool_text(c.enforce_whitelist)));
    lemma_pair_lines_push(p30, ("enforce-whitelist"@, bool_text(c.enforce_whitelist)));
    let p32 = p31.push(("op-permission-level"@, int_digits(c.op_permission_level as int)));
    lemma_pair_lines_push(p31, ("op-permission-level"@, int_digits(c.op_permission_level as int)));
    let p33 = p32.push(("function-permission-level"@, int_digits(c.function_permission_level as int)));
    lemma_pair_lines_push(p32, ("function-permission-level"@, int_digits(c.function_permission_level as int)));
    let p34 = p33.push(("enforce-secure-profile"@, bool_text(c.enforce_secure_profile)));
    lemma_pair_lines_push(p33, ("enforce-secure-profile"@, bool_text(c.enforce_secure_profile)));
    let p35 = p34.push(("log-ips"@, bool_text(c.log_ips)));
    lemma_pair_lines_push(p34, ("log-ips"@, bool_text(c.log_ips)));
    let p36 = p35.push(("max-tick-time"@, int_digits(c.max_tick_time as int)));
    lemma_pair_lines_push(p35, ("max-tick-time"@, int_digits(c.max_tick_time as int)));
    let p37 = p36.push(("player-idle-timeout"@, int_digits(c.player_idle_timeout as int)));
    lemma_pair_lines_push(p36, ("player-idle-timeout"@, int_digits(c.player_idle_timeout as int)));
    let p38 = p37.push(("broadcast-console-to-ops"@, bool_text(c.broadcast_console_to_ops)));
    lemma_pair_lines_push(p37, ("broadcast-console-to-ops"@, bool_text(c.broadcast_console_to_ops)));
    let p39 = p38.push(("broadcast-rcon-to-ops"@, bool_text(c.broadcast_rcon_to_ops)));
    lemma_pair_lines_push(p38, ("broadcast-rcon-to-ops"@, bool_text(c.broadcast_rcon_to_ops)));
    let p40 = p39.push(("enable-rcon"@, bool_text(c.enable_rcon)));
    lemma_pair_lines_push(p39, ("enable-rcon"@, bool_text(c.enable_rcon)));
    let p41 = p40.push(("rcon.port"@, int_digits(c.rcon_port as int)));
    lemma_pair_lines_push(p40, ("rcon.port"@, int_digits(c.rcon_port as int)));
    let p42 = p41.push(("rcon.password"@, c.rcon_password@));
    lemma_pair_lines_push(p41, ("rcon.password"@, c.rcon_password@));
    let p43 = p42.push(("enable-query"@, bool_text(c.enable_query)));
    lemma_pair_lines_push(p42, ("enable-query"@, bool_text(c.enable_query)));
    let p44 = p43.push(("query.port"@, int_digits(c.query_port as int)));
    lemma_pair_lines_push(p43, ("query.port"@, int_digits(c.query_port as int)));
    let p45 = p44.push(("resource-pack"@, c.resource_pack@));
    lemma_pair_lines_push(p44, ("resource-pack"@, c.resource_pack@));
    let p46 = p45.push(("resource-pack-sha1"@, c.resource_pack_sha1@));
    lemma_pair_lines_push(p45, ("resource-pack-sha1"@, c.resource_pack_sha1@));
    let p47 = p46.push(("resource-pack-prompt"@, c.resource_pack_prompt@));
    lemma_pair_lines_push(p46, ("resource-pack-prompt"@, c.resource_pack_prompt@));
    let p48 = p47.push(("require-resource-pack"@, bool_text(c.require_resource_pack)));
    lemma_pair_lines_push(p47, ("require-resource-pack"@, bool_text(c.require_resource_pack)));
    let p49 = p48.push(("management-server-enabled"@, bool_text(c.management_server_enabled)));
    lemma_pair_lines_push(p48, ("management-server-enabled"@, bool_text(c.management_server_enabled)));
    let p50 = p49.push(("management-server-host"@, c.management_server_host@));
    lemma_pair_lines_push(p49, ("management-server-host"@, c.management_server_host@));
    let p51 = p50.push(("management-server-port"@, int_digits(c.management_server_port as int)));
    lemma_pair_lines_push(p50, ("management-server-port"@, int_digits(c.management_server_port as int)));
    let p52 = p51.push(("management-server-secret"@, c.management_server_secret@));
    lemma_pair_lines_push(p51, ("management-server-secret"@, c.management_server_secret@));
    let p53 = p52.push(("management-server-tls-enabled"@, bool_text(c.management_server_tls_enabled)));
    lemma_pair_lines_push(p52, ("management-server-tls-enabled"@, bool_text(c.management_server_tls_enabled)));
    let p54 = p53.push(("enable-code-of-conduct"@, bool_text(c.enable_code_of_conduct)));
    lemma_pair_lines_push(p53, ("enable-code-of-conduct"@, bool_text(c.enable_code_of_conduct)));
    let p55 = p54.push(("bug-report-link"@, c.bug_report_link@));
    lemma_pair_lines_push(p54, ("bug-report-link"@, c.bug_report_link@));
    let p56 = p55.push(("sync-chunk-writes"@, bool_text(c.sync_chunk_writes)));
    lemma_pair_lines_push(p55, ("sync-chunk-writes"@, bool_text(c.sync_chunk_writes)));
    let p57 = p56.push(("region-file-compression"@, c.region_file_compression@));
    lemma_pair_lines_push(p56, ("region-file-compression"@, c.region_file_compression@));
    let p58 = p57.push(("enable-jmx-monitoring"@, bool_text(c.enable_jmx_monitoring)));
    lemma_pair_lines_push(p57, ("enable-jmx-monitoring"@, bool_text(c.enable_jmx_monitoring)));
    let p59 = p58.push(("text-filtering-config"@, c.text_filtering_config@));
    lemma_pair_lines_push(p58, ("text-filtering-config"@, c.text_filtering_config@));
    let p60 = p59.push(("text-filtering-version"@, int_digits(c.text_filtering_version as int)));
    lemma_pair_lines_push(p59, ("text-filtering-version"@, int_digits(c.text_filtering_version as int)));
    let p61 = p60.push(("accepts-transfers"@, bool_text(c.accepts_transfers)));
    lemma_pair_lines_push(p60, ("accepts-transfers"@, bool_text(c.accepts_transfers)));
    let p62 = p61.push(("pause-when-empty-seconds"@, int_digits(c.pause_when_empty_seconds as int)));
    lemma_pair_lines_push(p61, ("pause-when-empty-seconds"@, int_digits(c.pause_when_empty_seconds as int)));
    let p63 = p62.push(("initial-enabled-packs"@, c.initial_enabled_packs@));
    lemma_pair_lines_push(p62, ("initial-enabled-packs"@, c.initial_enabled_packs@));
    let p64 = p63.push(("initial-disabled-packs"@, c.initial_disabled_packs@));
    lemma_pair_lines_push(p63, ("initial-disabled-packs"@, c.initial_disabled_packs@));
    let p65 = p64.push(("status-heartbeat-interval"@, int_digits(c.status_heartbeat_interval as int)));
    lemma_pair_lines_push(p64, ("status-heartbeat-interval"@, int_digits(c.status_heartbeat_interval as int)));
    assert(known_pairs(c) == p65);
}

/// Inserting the known pairs into the empty map gives [`known_map`].
proof fn lemma_known_insert_all(c: ServerConfig)
    ensures
        insert_all(Map::empty(), known_pairs(c)) == known_map(c),
{
    reveal(known_pairs);
    reveal(known_map);
    let m = Map::<Seq<char>, Seq<char>>::empty();
    let p0 = Seq::<(Seq<char>, Seq<char>)>::empty();
    assert(insert_all(m, p0) == m);
    let p1 = p0.push(("server-port"@, int_digits(c.server_port as int)));
    lemma_insert_all_push(m, p0, ("server-port"@, int_digits(c.server_port as int)));
    let p2 = p1.push(("server-ip"@, c.server_ip@));
    lemma_insert_all_push(m, p1, ("server-ip"@, c.server_ip@));
    let p3 = p2.push(("online-mode"@, bool_text(c.online_mode)));
    lemma_insert_all_push(m, p2, ("online-mode"@, bool_text(c.online_mode)));
    let p4 = p3.push(("prevent-proxy-connections"@, bool_text(c.prevent_proxy_connections)));
    lemma_insert_all_push(m, p3, ("prevent-proxy-connections"@, bool_text(c.prevent_proxy_connections)));
    let p5 = p4.push(("network-compression-threshold"@, int_digits(c.network_compression_threshold as int)));
    lemma_insert_all_push(m, p4, ("network-compression-threshold"@, int_digits(c.network_compression_threshold as int)));
    let p6 = p5.push(("use-native-transport"@, bool_text(c.use_native_transport)));
    lemma_insert_all_push(m, p5, ("use-native-transport"@, bool_text(c.use_native_transport)));
    let p7 = p6.push(("rate-limit"@, int_digits(c.rate_limit as int)));
    lemma_insert_all_push(m, p6, ("rate-limit"@, int_digits(c.rate_limit as int)));
    let p8 = p7.push(("gamemode"@, c.gamemode@));
    lemma_insert_all_push(m, p7, ("gamemode"@, c.gamemode@));
    let p9 = p8.push(("difficulty"@, c.difficulty@));
    lemma_insert_all_push(m, p8, ("difficulty"@, c.difficulty@));
    let p10 = p9.push(("hardcore"@, bool_text(c.hardcore)));
    lemma_insert_all_push(m, p9, ("hardcore"@, bool_text(c.hardcore)));
    let p11 = p10.push(("force-gamemode"@, bool_text(c.force_gamemode)));
    lemma_insert_all_push(m, p10, ("force-gamemode"@, bool_text(c.force_gamemode)));
    let p12 = p11.push(("max-players"@, int_digits(c.max_players as int)));
    lemma_insert_all_push(m, p11, ("max-players"@, int_digits(c.max_players as int)));
    let p13 = p12.push(("view-distance"@, int_digits(c.view_distance as int)));
    lemma_insert_all_push(m, p12, ("view-distance"@, int_digits(c.view_distance as int)));
    let p14 = p13.push(("simulation-distance"@, int_digits(c.simulation_distance as int)));
    lemma_insert_all_push(m, p13, ("simulation-distance"@, int_digits(c.simulation_distance as int)));
    let p15 = p14.push(("spawn-protection"@, int_digits(c.spawn_protection as int)));
    lemma_insert_all_push(m, p14, ("spawn-protection"@, int_digits(c.spawn_protection as int)));
    let p16 = p15.push(("max-world-size"@, int_digits(c.max_world_size as int)));
    lemma_insert_all_push(m, p15, ("max-world-size"@, int_digits(c.max_world_size as int)));
    let p17 = p16.push(("allow-flight"@, bool_text(c.allow_flight)));
    lemma_insert_all_push(m, p16, ("allow-flight"@, bool_text(c.allow_flight)));
    let p18 = p17.push(("level-name"@, c.level_name@));
    lemma_insert_all_push(m, p17, ("level-name"@, c.level_name@));
    let p19 = p18.push(("level-seed"@, c.level_seed@));
    lemma_insert_all_push(m, p18, ("level-seed"@, c.level_seed@));
    let p20 = p19.push(("generate-structures"@, bool_text(c.generate_structures)));
    lemma_insert_all_push(m, p19, ("generate-structures"@, bool_text(c.generate_structures)));
    let p21 = p20.push(("max-chained-neighbor-updates"@, int_digits(c.max_chained_neighbor_updates as int)));
    lemma_insert_all_push(m, p20, ("max-chained-neighbor-updates"@, int_digits(c.max_chained_neighbor_updates as int)));
    let p22 = p21.push(("spawn-npcs"@, bool_text(c.spawn_npcs)));
    lemma_insert_all_push(m, p21, ("spawn-npcs"@, bool_text(c.spawn_npcs)));
    let p23 = p22.push(("spawn-animals"@, bool_text(c.spawn_animals)));
    lemma_insert_all_push(m, p22, ("spawn-animals"@, bool_text(c.spawn_animals)));
    let p24 = p23.push(("spawn-monsters"@, bool_text(c.spawn_monsters)));
    lemma_insert_all_push(m, p23, ("spawn-monsters"@, bool_text(c.spawn_monsters)));
    let p25 = p24.push(("allow-nether"@, bool_text(c.allow_nether)));
    lemma_insert_all_push(m, p24, ("allow-nether"@, bool_text(c.allow_nether)));
    let p26 = p25.push(("motd"@, c.motd@));
    lemma_insert_all_push(m, p25, ("motd"@, c.motd@));
    let p27 = p26.push(("enable-status"@, bool_text(c.enable_status)));
    lemma_insert_all_push(m, p26, ("enable-status"@, bool_text(c.enable_status)));
    let p28 = p27.push(("hide-online-players"@, bool_text(c.hide_online_players)));
    lemma_insert_all_push(m, p27, ("hide-online-players"@, bool_text(c.hide_online_players)));
    let p29 = p28.push(("entity-broadcast-range-percentage"@, int_digits(c.entity_broadcast_range_percentage as int)));
    lemma_insert_all_push(m, p28, ("entity-broadcast-range-percentage"@, int_digits(c.entity_broadcast_range_percentage as int)));
    let p30 = p29.push(("white-list"@, bool_text(c.white_list)));
    lemma_insert_all_push(m, p29, ("white-list"@, bool_text(c.white_list)));
    let p31 = p30.push(("enforce-whitelist"@, bool_text(c.enforce_whitelist)));
    lemma_insert_all_push(m, p30, ("enforce-whitelist"@, bool_text(c.enforce_whitelist)));
    let p32 = p31.push(("op-permission-level"@, int_digits(c.op_permission_level as int)));
    lemma_insert_all_push(m, p31, ("op-permission-level"@, int_digits(c.op_permission_level as int)));
    let p33 = p32.push(("function-permission-level"@, int_digits(c.function_permission_level as int)));
    lemma_insert_all_push(m, p32, ("function-permission-level"@, int_digits(c.function_permission_level as int)));
    let p34 = p33.push(("enforce-secure-profile"@, bool_text(c.enforce_secure_profile)));
    lemma_insert_all_push(m, p33, ("enforce-secure-profile"@, bool_text(c.enforce_secure_profile)));
    let p35 = p34.push(("log-ips"@, bool_text(c.log_ips)));
    lemma_insert_all_push(m, p34, ("log-ips"@, bool_text(c.log_ips)));
    let p36 = p35.push(("max-tick-time"@, int_digits(c.max_tick_time as int)));
    lemma_insert_all_push(m, p35, ("max-tick-time"@, int_digits(c.max_tick_time as int)));
    let p37 = p36.push(("player-idle-timeout"@, int_digits(c.player_idle_timeout as int)));
    lemma_insert_all_push(m, p36, ("player-idle-timeout"@, int_digits(c.player_idle_timeout as int)));
    let p38 = p37.push(("broadcast-console-to-ops"@, bool_text(c.broadcast_console_to_ops)));
    lemma_insert_all_push(m, p37, ("broadcast-console-to-ops"@, bool_text(c.broadcast_console_to_ops)));
    let p39 = p38.push(("broadcast-rcon-to-ops"@, bool_text(c.broadcast_rcon_to_ops)));
    lemma_insert_all_push(m, p38, ("broadcast-rcon-to-ops"@, bool_text(c.broadcast_rcon_to_ops)));
    let p40 = p39.push(("enable-rcon"@, bool_text(c.enable_rcon)));
    lemma_insert_all_push(m, p39, ("enable-rcon"@, bool_text(c.enable_rcon)));
    let p41 = p40.push(("rcon.port"@, int_digits(c.rcon_port as int)));
    lemma_insert_all_push(m, p40, ("rcon.port"@, int_digits(c.rcon_port as int)));
    let p42 = p41.push(("rcon.password"@, c.rcon_password@));
    lemma_insert_all_push(m, p41, ("rcon.password"@, c.rcon_password@));
    let p43 = p42.push(("enable-query"@, bool_text(c.enable_query)));
    lemma_insert_all_push(m, p42, ("enable-query"@, bool_text(c.enable_query)));
    let p44 = p43.push(("query.port"@, int_digits(c.query_port as int)));
    lemma_insert_all_push(m, p43, ("query.port"@, int_digits(c.query_port as int)));
    let p45 = p44.push(("resource-pack"@, c.resource_pack@));
    lemma_insert_all_push(m, p44, ("resource-pack"@, c.resource_pack@));
    let p46 = p45.push(("resource-pack-sha1"@, c.resource_pack_sha1@));
    lemma_insert_all_push(m, p45, ("resource-pack-sha1"@, c.resource_pack_sha1@));
    let p47 = p46.push(("resource-pack-prompt"@, c.resource_pack_prompt@));
    lemma_insert_all_push(m, p46, ("resource-pack-prompt"@, c.resource_pack_prompt@));
    let p48 = p47.push(("require-resource-pack"@, bool_text(c.require_resource_pack)));
    lemma_insert_all_push(m, p47, ("require-resource-pack"@, bool_text(c.require_resource_pack)));
    let p49 = p48.push(("management-server-enabled"@, bool_text(c.management_server_enabled)));
    lemma_insert_all_push(m, p48, ("management-server-enabled"@, bool_text(c.management_server_enabled)));
    let p50 = p49.push(("management-server-host"@, c.management_server_host@));
    lemma_insert_all_push(m, p49, ("management-server-host"@, c.management_server_host@));
    let p51 = p50.push(("management-server-port"@, int_digits(c.management_server_port as int)));
    lemma_insert_all_push(m, p50, ("management-server-port"@, int_digits(c.management_server_port as int)));
    let p52 = p51.push(("management-server-secret"@, c.management_server_secret@));
    lemma_insert_all_push(m, p51, ("management-server-secret"@, c.management_server_secret@));
    let p53 = p52.push(("management-server-tls-enabled"@, bool_text(c.management_server_tls_enabled)));
    lemma_insert_all_push(m, p52, ("management-server-tls-enabled"@, bool_text(c.management_server_tls_enabled)));
    let p54 = p53.push(("enable-code-of-conduct"@, bool_text(c.enable_code_of_conduct)));
    lemma_insert_all_push(m, p53, ("enable-code-of-conduct"@, bool_text(c.enable_code_of_conduct)));
    let p55 = p54.push(("bug-report-link"@, c.bug_report_link@));
    lemma_insert_all_push(m, p54, ("bug-report-link"@, c.bug_report_link@));
    let p56 = p55.push(("sync-chunk-writes"@, bool_text(c.sync_chunk_writes)));
    lemma_insert_all_push(m, p55, ("sync-chunk-writes"@, bool_text(c.sync_chunk_writes)));
    let p57 = p56.push(("region-file-compression"@, c.region_file_compression@));
    lemma_insert_all_push(m, p56, ("region-file-compression"@, c.region_file_compression@));
    let p58 = p57.push(("enable-jmx-monitoring"@, bool_text(c.enable_jmx_monitoring)));
    lemma_insert_all_push(m, p57, ("enable-jmx-monitoring"@, bool_text(c.enable_jmx_monitoring)));
    let p59 = p58.push(("text-filtering-config"@, c.text_filtering_config@));
    lemma_insert_all_push(m, p58, ("text-filtering-config"@, c.text_filtering_config@));
    let p60 = p59.push(("text-filtering-version"@, int_digits(c.text_filtering_version as int)));
    lemma_insert_all_push(m, p59, ("text-filtering-version"@, int_digits(c.text_filtering_version as int)));
    let p61 = p60.push(("accepts-transfers"@, bool_text(c.accepts_transfers)));
    lemma_insert_all_push(m, p60, ("accepts-transfers"@, bool_text(c.accepts_transfers)));
    let p62 = p61.push(("pause-when-empty-seconds"@, int_digits(c.pause_when_empty_seconds as int)));
    lemma_insert_all_push(m, p61, ("pause-when-empty-seconds"@, int_digits(c.pause_when_empty_seconds as int)));
    let p63 = p62.push(("initial-enabled-packs"@, c.initial_enabled_packs@));
    lemma_insert_all_push(m, p62, ("initial-enabled-packs"@, c.initial_enabled_packs@));
    let p64 = p63.push(("initial-disabled-packs"@, c.initial_disabled_packs@));
    lemma_insert_all_push(m, p63, ("initial-disabled-packs"@, c.initial_disabled_packs@));
    let p65 = p64.push(("status-heartbeat-interval"@, int_digits(c.status_heartbeat_interval as int)));
    lemma_insert_all_push(m, p64, ("status-heartbeat-interval"@, int_digits(c.status_heartbeat_interval as int)));
    assert(known_pairs(c) == p65);
}

/// The known keys in ascending order.
pub open spec fn sorted_known_keys() -> Seq<Seq<char>> {
    seq![
        "accepts-transfers"@,
        "allow-flight"@,
        "allow-nether"@,
        "broadcast-console-to-ops"@,
        "broadcast-rcon-to-ops"@,
        "bug-report-link"@,
        "difficulty"@,
        "enable-code-of-conduct"@,
        "enable-jmx-monitoring"@,
        "enable-query"@,
        "enable-rcon"@,
        "enable-status"@,
        "enforce-secure-profile"@,
        "enforce-whitelist"@,
        "entity-broadcast-range-percentage"@,
        "force-gamemode"@,
        "function-permission-level"@,
        "gamemode"@,
        "generate-structures"@,
        "hardcore"@,
        "hide-online-players"@,
        "initial-disabled-packs"@,
        "initial-enabled-packs"@,
        "level-name"@,
        "level-seed"@,
        "log-ips"@,
        "management-server-enabled"@,
        "management-server-host"@,
        "management-server-port"@,
        "management-server-secret"@,
        "management-server-tls-enabled"@,
        "max-chained-neighbor-updates"@,
        "max-players"@,
        "max-tick-time"@,
        "max-world-size"@,
        "motd"@,
        "network-compression-threshold"@,
        "online-mode"@,
        "op-permission-level"@,
        "pause-when-empty-seconds"@,
        "player-idle-timeout"@,
        "prevent-proxy-connections"@,
        "query.port"@,
        "rate-limit"@,
        "rcon.password"@,
        "rcon.port"@,
        "region-file-compression"@,
        "require-resource-pack"@,
        "resource-pack"@,
        "resource-pack-prompt"@,
        "resource-pack-sha1"@,
        "server-ip"@,
        "server-port"@,
        "simulation-distance"@,
        "spawn-animals"@,
        "spawn-monsters"@,
        "spawn-npcs"@,
        "spawn-protection"@,
        "status-heartbeat-interval"@,
        "sync-chunk-writes"@,
        "text-filtering-config"@,
        "text-filtering-version"@,
        "use-native-transport"@,
        "view-distance"@,
        "white-list"@,
    ]
}

/// The known keys are listed in strictly ascending order, so no two are
/// equal.
proof fn lemma_known_keys_ascending()
    ensures
        forall|a: int, b: int|
            0 <= a < sorted_known_keys().len() && 0 <= b < sorted_known_keys().len() && a != b
                ==> #[trigger] sorted_known_keys()[a] != #[trigger] sorted_known_keys()[b],
{
    reveal_strlit("accepts-transfers");
    reveal_strlit("allow-flight");
    reveal_strlit("allow-nether");
    reveal_strlit("broadcast-console-to-ops");
    reveal_strlit("broadcast-rcon-to-ops");
    reveal_strlit("bug-report-link");
    reveal_strlit("difficulty");
    reveal_strlit("enable-code-of-conduct");
    reveal_strlit("enable-jmx-monitoring");
    reveal_strlit("enable-query");
    reveal_strlit("enable-rcon");
    reveal_strlit("enable-status");
    reveal_strlit("enforce-secure-profile");
    reveal_strlit("enforce-whitelist");
    reveal_strlit("entity-broadcast-range-percentage");
    reveal_strlit("force-gamemode");
    reveal_strlit("function-permission-level");
    reveal_strlit("gamemode");
    reveal_strlit("generate-structures");
    reveal_strlit("hardcore");
    reveal_strlit("hide-online-players");
    reveal_strlit("initial-disabled-packs");
    reveal_strlit("initial-enabled-packs");
    reveal_strlit("level-name");
    reveal_strlit("level-seed");
    reveal_strlit("log-ips");
    reveal_strlit("management-server-enabled");
    reveal_strlit("management-server-host");
    reveal_strlit("management-server-port");
    reveal_strlit("management-server-secret");
    reveal_strlit("management-server-tls-enabled");
    reveal_strlit("max-chained-neighbor-updates");
    reveal_strlit("max-players");
    reveal_strlit("max-tick-time");
    reveal_strlit("max-world-size");
    reveal_strlit("motd");
    reveal_strlit("network-compression-threshold");
    reveal_strlit("online-mode");
    reveal_strlit("op-permission-level");
    reveal_strlit("pause-when-empty-seconds");
    reveal_strlit("player-idle-timeout");
    reveal_strlit("prevent-proxy-connections");
    reveal_strlit("query.port");
    reveal_strlit("rate-limit");
    reveal_strlit("rcon.password");
    reveal_strlit("rcon.port");
    reveal_strlit("region-file-compression");
    reveal_strlit("require-resource-pack");
    reveal_strlit("resource-pack");
    reveal_strlit("resource-pack-prompt");
    reveal_strlit("resource-pack-sha1");
    reveal_strlit("server-ip");
    reveal_strlit("server-port");
    reveal_strlit("simulation-distance");
    reveal_strlit("spawn-animals");
    reveal_strlit("spawn-monsters");
    reveal_strlit("spawn-npcs");
    reveal_strlit("spawn-protection");
    reveal_strlit("status-heartbeat-interval");
    reveal_strlit("sync-chunk-writes");
    reveal_strlit("text-filtering-config");
    reveal_strlit("text-filtering-version");
    reveal_strlit("use-native-transport");
    reveal_strlit("view-distance");
    reveal_strlit("white-list");
    let s = sorted_known_keys();
    assert(s[0] == "accepts-transfers"@ && s[1] == "allow-flight"@);
    assert("accepts-transfers"@.take(1) =~= "allow-flight"@.take(1));
    lemma_lt_at("accepts-transfers"@, "allow-flight"@, 1);
    assert(s[1] == "allow-flight"@ && s[2] == "allow-nether"@);
    assert("allow-flight"@.take(6) =~= "allow-nether"@.take(6));
    lemma_lt_at("allow-flight"@, "allow-nether"@, 6);
    assert(s[2] == "allow-nether"@ && s[3] == "broadcast-console-to-ops"@);
    assert("allow-nether"@.take(0) =~= "broadcast-console-to-ops"@.take(0));
    lemma_lt_at("allow-nether"@, "broadcast-console-to-ops"@, 0);
    assert(s[3] == "broadcast-console-to-ops"@ && s[4] == "broadcast-rcon-to-ops"@);
    assert("broadcast-console-to-ops"@.take(10) =~= "broadcast-rcon-to-ops"@.take(10));
    lemma_lt_at("broadcast-console-to-ops"@, "broadcast-rcon-to-ops"@, 10);
    assert(s[4] == "broadcast-rcon-to-ops"@ && s[5] == "bug-report-link"@);
    assert("broadcast-rcon-to-ops"@.take(1) =~= "bug-report-link"@.take(1));
    lemma_lt_at("broadcast-rcon-to-ops"@, "bug-report-link"@, 1);
    assert(s[5] == "bug-report-link"@ && s[6] == "difficulty"@);
    assert("bug-report-link"@.take(0) =~= "difficulty"@.take(0));
    lemma_lt_at("bug-report-link"@, "difficulty"@, 0);
    assert(s[6] == "difficulty"@ && s[7] == "enable-code-of-conduct"@);
    assert("difficulty"@.take(0) =~= "enable-code-of-conduct"@.take(0));
    lemma_lt_at("difficulty"@, "enable-code-of-conduct"@, 0);
    assert(s[7] == "enable-code-of-conduct"@ && s[8] == "enable-jmx-monitoring"@);
    assert("enable-code-of-conduct"@.take(7) =~= "enable-jmx-monitoring"@.take(7));
    lemma_lt_at("enable-code-of-conduct"@, "enable-jmx-monitoring"@, 7);
    assert(s[8] == "enable-jmx-monitoring"@ && s[9] == "enable-query"@);
    assert("enable-jmx-monitoring"@.take(7) =~= "enable-query"@.take(7));
    lemma_lt_at("enable-jmx-monitoring"@, "enable-query"@, 7);
    assert(s[9] == "enable-query"@ && s[10] == "enable-rcon"@);
    assert("enable-query"@.take(7) =~= "enable-rcon"@.take(7));
    lemma_lt_at("enable-query"@, "enable-rcon"@, 7);
    assert(s[10] == "enable-rcon"@ && s[11] == "enable-status"@);
    assert("enable-rcon"@.take(7) =~= "enable-status"@.take(7));
    lemma_lt_at("enable-rcon"@, "enable-status"@, 7);
    assert(s[11] == "enable-status"@ && s[12] == "enforce-secure-profile"@);
    assert("enable-status"@.take(2) =~= "enforce-secure-profile"@.take(2));
    lemma_lt_at("enable-status"@, "enforce-secure-profile"@, 2);
    assert(s[12] == "enforce-secure-profile"@ && s[13] == "enforce-whitelist"@);
    assert("enforce-secure-profile"@.take(8) =~= "enforce-whitelist"@.take(8));
    lemma_lt_at("enforce-secure-profile"@, "enforce-whitelist"@, 8);
    assert(s[13] == "enforce-whitelist"@ && s[14] == "entity-broadcast-range-percentage"@);
    assert("enforce-whitelist"@.take(2) =~= "entity-broadcast-range-percentage"@.take(2));
    lemma_lt_at("enforce-whitelist"@, "entity-broadcast-range-percentage"@, 2);
    assert(s[14] == "entity-broadcast-range-percentage"@ && s[15] == "force-gamemode"@);
    assert("entity-broadcast-range-percentage"@.take(0) =~= "force-gamemode"@.take(0));
    lemma_lt_at("entity-broadcast-range-percentage"@, "force-gamemode"@, 0);
    assert(s[15] == "force-gamemode"@ && s[16] == "function-permission-level"@);
    assert("force-gamemode"@.take(1) =~= "function-permission-level"@.take(1));
    lemma_lt_at("force-gamemode"@, "function-permission-level"@, 1);
    assert(s[16] == "function-permission-level"@ && s[17] == "gamemode"@);
    assert("function-permission-level"@.take(0) =~= "gamemode"@.take(0));
    lemma_lt_at("function-permission-level"@, "gamemode"@, 0);
    assert(s[17] == "gamemode"@ && s[18] == "generate-structures"@);
    assert("gamemode"@.take(1) =~= "generate-structures"@.take(1));
    lemma_lt_at("gamemode"@, "generate-structures"@, 1);
    assert(s[18] == "generate-structures"@ && s[19] == "hardcore"@);
    assert("generate-structures"@.take(0) =~= "hardcore"@.take(0));
    lemma_lt_at("generate-structures"@, "hardcore"@, 0);
    assert(s[19] == "hardcore"@ && s[20] == "hide-online-players"@);
    assert("hardcore"@.take(1) =~= "hide-online-players"@.take(1));
    lemma_lt_at("hardcore"@, "hide-online-players"@, 1);
    assert(s[20] == "hide-online-players"@ && s[21] == "initial-disabled-packs"@);
    assert("hide-online-players"@.take(0) =~= "initial-disabled-packs"@.take(0));
    lemma_lt_at("hide-online-players"@, "initial-disabled-packs"@, 0);
    assert(s[21] == "initial-disabled-packs"@ && s[22] == "initial-enabled-packs"@);
    assert("initial-disabled-packs"@.take(8) =~= "initial-enabled-packs"@.take(8));
    lemma_lt_at("initial-disabled-packs"@, "initial-enabled-packs"@, 8);
    assert(s[22] == "initial-enabled-packs"@ && s[23] == "level-name"@);
    assert("initial-enabled-packs"@.take(0) =~= "level-name"@.take(0));
    lemma_lt_at("initial-enabled-packs"@, "level-name"@, 0);
    assert(s[23] == "level-name"@ && s[24] == "level-seed"@);
    assert("level-name"@.take(6) =~= "level-seed"@.take(6));
    lemma_lt_at("level-name"@, "level-seed"@, 6);
    assert(s[24] == "level-seed"@ && s[25] == "log-ips"@);
    assert("level-seed"@.take(1) =~= "log-ips"@.take(1));
    lemma_lt_at("level-seed"@, "log-ips"@, 1);
    assert(s[25] == "log-ips"@ && s[26] == "management-server-enabled"@);
    assert("log-ips"@.take(0) =~= "management-server-enabled"@.take(0));
    lemma_lt_at("log-ips"@, "management-server-enabled"@, 0);
    assert(s[26] == "management-server-enabled"@ && s[27] == "management-server-host"@);
    assert("management-server-enabled"@.take(18) =~= "management-server-host"@.take(18));
    lemma_lt_at("management-server-enabled"@, "management-server-host"@, 18);
    assert(s[27] == "management-server-host"@ && s[28] == "management-server-port"@);
    assert("management-server-host"@.take(18) =~= "management-server-port"@.take(18));
    lemma_lt_at("management-server-host"@, "management-server-port"@, 18);
    assert(s[28] == "management-server-port"@ && s[29] == "management-server-secret"@);
    assert("management-server-port"@.take(18) =~= "management-server-secret"@.take(18));
    lemma_lt_at("management-server-port"@, "management-server-secret"@, 18);
    assert(s[29] == "management-server-secret"@ && s[30] == "management-server-tls-enabled"@);
    assert("management-server-secret"@.take(18) =~= "management-server-tls-enabled"@.take(18));
    lemma_lt_at("management-server-secret"@, "management-server-tls-enabled"@, 18);
    assert(s[30] == "management-server-tls-enabled"@ && s[31] == "max-chained-neighbor-updates"@);
    assert("management-server-tls-enabled"@.take(2) =~= "max-chained-neighbor-updates"@.take(2));
    lemma_lt_at("management-server-tls-enabled"@, "max-chained-neighbor-updates"@, 2);
    assert(s[31] == "max-chained-neighbor-updates"@ && s[32] == "max-players"@);
    assert("max-chained-neighbor-updates"@.take(4) =~= "max-players"@.take(4));
    lemma_lt_at("max-chained-neighbor-updates"@, "max-players"@, 4);
    assert(s[32] == "max-players"@ && s[33] == "max-tick-time"@);
    assert("max-players"@.take(4) =~= "max-tick-time"@.take(4));
    lemma_lt_at("max-players"@, "max-tick-time"@, 4);
    assert(s[33] == "max-tick-time"@ && s[34] == "max-world-size"@);
    assert("max-tick-time"@.take(4) =~= "max-world-size"@.take(4));
    lemma_lt_at("max-tick-time"@, "max-world-size"@, 4);
    assert(s[34] == "max-world-size"@ && s[35] == "motd"@);
    assert("max-world-size"@.take(1) =~= "motd"@.take(1));
    lemma_lt_at("max-world-size"@, "motd"@, 1);
    assert(s[35] == "motd"@ && s[36] == "network-compression-threshold"@);
    assert("motd"@.take(0) =~= "network-compression-threshold"@.take(0));
    lemma_lt_at("motd"@, "network-compression-threshold"@, 0);
    assert(s[36] == "network-compression-threshold"@ && s[37] == "online-mode"@);
    assert("network-compression-threshold"@.take(0) =~= "online-mode"@.take(0));
    lemma_lt_at("network-compression-threshold"@, "online-mode"@, 0);
    assert(s[37] == "online-mode"@ && s[38] == "op-permission-level"@);
    assert("online-mode"@.take(1) =~= "op-permission-level"@.take(1));
    lemma_lt_at("online-mode"@, "op-permission-level"@, 1);
    assert(s[38] == "op-permission-level"@ && s[39] == "pause-when-empty-seconds"@);
    assert("op-permission-level"@.take(0) =~= "pause-when-empty-seconds"@.take(0));
    lemma_lt_at("op-permission-level"@, "pause-when-empty-seconds"@, 0);
    assert(s[39] == "pause-when-empty-seconds"@ && s[40] == "player-idle-timeout"@);
    assert("pause-when-empty-seconds"@.take(1) =~= "player-idle-timeout"@.take(1));
    lemma_lt_at("pause-when-empty-seconds"@, "player-idle-timeout"@, 1);
    assert(s[40] == "player-idle-timeout"@ && s[41] == "prevent-proxy-connections"@);
    assert("player-idle-timeout"@.take(1) =~= "prevent-proxy-connections"@.take(1));
    lemma_lt_at("player-idle-timeout"@, "prevent-proxy-connections"@, 1);
    assert(s[41] == "prevent-proxy-connections"@ && s[42] == "query.port"@);
    assert("prevent-proxy-connections"@.take(0) =~= "query.port"@.take(0));
    lemma_lt_at("prevent-proxy-connections"@, "query.port"@, 0);
    assert(s[42] == "query.port"@ && s[43] == "rate-limit"@);
    assert("query.port"@.take(0) =~= "rate-limit"@.take(0));
    lemma_lt_at("query.port"@, "rate-limit"@, 0);
    assert(s[43] == "rate-limit"@ && s[44] == "rcon.password"@);
    assert("rate-limit"@.take(1) =~= "rcon.password"@.take(1));
    lemma_lt_at("rate-limit"@, "rcon.password"@, 1);
    assert(s[44] == "rcon.password"@ && s[45] == "rcon.port"@);
    assert("rcon.password"@.take(6) =~= "rcon.port"@.take(6));
    lemma_lt_at("rcon.password"@, "rcon.port"@, 6);
    assert(s[45] == "rcon.port"@ && s[46] == "region-file-compression"@);
    assert("rcon.port"@.take(1) =~= "region-file-compression"@.take(1));
    lemma_lt_at("rcon.port"@, "region-file-compression"@, 1);
    assert(s[46] == "region-file-compression"@ && s[47] == "require-resource-pack"@);
    assert("region-file-compression"@.take(2) =~= "require-resource-pack"@.take(2));
    lemma_lt_at("region-file-compression"@, "require-resource-pack"@, 2);
    assert(s[47] == "require-resource-pack"@ && s[48] == "resource-pack"@);
    assert("require-resource-pack"@.take(2) =~= "resource-pack"@.take(2));
    lemma_lt_at("require-resource-pack"@, "resource-pack"@, 2);
    assert(s[48] == "resource-pack"@ && s[49] == "resource-pack-prompt"@);
    assert("resource-pack"@.take(13) =~= "resource-pack-prompt"@.take(13));
    lemma_lt_at("resource-pack"@, "resource-pack-prompt"@, 13);
    assert(s[49] == "resource-pack-prompt"@ && s[50] == "resource-pack-sha1"@);
    assert("resource-pack-prompt"@.take(14) =~= "resource-pack-sha1"@.take(14));
    lemma_lt_at("resource-pack-prompt"@, "resource-pack-sha1"@, 14);
    assert(s[50] == "resource-pack-sha1"@ && s[51] == "server-ip"@);
    assert("resource-pack-sha1"@.take(0) =~= "server-ip"@.take(0));
    lemma_lt_at("resource-pack-sha1"@, "server-ip"@, 0);
    assert(s[51] == "server-ip"@ && s[52] == "server-port"@);
    assert("server-ip"@.take(7) =~= "server-port"@.take(7));
    lemma_lt_at("server-ip"@, "server-port"@, 7);
    assert(s[52] == "server-port"@ && s[53] == "simulation-distance"@);
    assert("server-port"@.take(1) =~= "simulation-distance"@.take(1));
    lemma_lt_at("server-port"@, "simulation-distance"@, 1);
    assert(s[53] == "simulation-distance"@ && s[54] == "spawn-animals"@);
    assert("simulation-distance"@.take(1) =~= "spawn-animals"@.take(1));
    lemma_lt_at("simulation-distance"@, "spawn-animals"@, 1);
    assert(s[54] == "spawn-animals"@ && s[55] == "spawn-monsters"@);
    assert("spawn-animals"@.take(6) =~= "spawn-monsters"@.take(6));
    lemma_lt_at("spawn-animals"@, "spawn-monsters"@, 6);
    assert(s[55] == "spawn-monsters"@ && s[56] == "spawn-npcs"@);
    assert("spawn-monsters"@.take(6) =~= "spawn-npcs"@.take(6));
    lemma_lt_at("spawn-monsters"@, "spawn-npcs"@, 6);
    assert(s[56] == "spawn-npcs"@ && s[57] == "spawn-protection"@);
    assert("spawn-npcs"@.take(6) =~= "spawn-protection"@.take(6));
    lemma_lt_at("spawn-npcs"@, "spawn-protection"@, 6);
    assert(s[57] == "spawn-protection"@ && s[58] == "status-heartbeat-interval"@);
    assert("spawn-protection"@.take(1) =~= "status-heartbeat-interval"@.take(1));
    lemma_lt_at("spawn-protection"@, "status-heartbeat-interval"@, 1);
    assert(s[58] == "status-heartbeat-interval"@ && s[59] == "sync-chunk-writes"@);
    assert("status-heartbeat-interval"@.take(1) =~= "sync-chunk-writes"@.take(1));
    lemma_lt_at("status-heartbeat-interval"@, "sync-chunk-writes"@, 1);
    assert(s[59] == "sync-chunk-writes"@ && s[60] == "text-filtering-config"@);
    assert("sync-chunk-writes"@.take(0) =~= "text-filtering-config"@.take(0));
    lemma_lt_at("sync-chunk-writes"@, "text-filtering-config"@, 0);
    assert(s[60] == "text-filtering-config"@ && s[61] == "text-filtering-version"@);
    assert("text-filtering-config"@.take(15) =~= "text-filtering-version"@.take(15));
    lemma_lt_at("text-filtering-config"@, "text-filtering-version"@, 15);
    assert(s[61] == "text-filtering-version"@ && s[62] == "use-native-transport"@);
    assert("text-filtering-version"@.take(0) =~= "use-native-transport"@.take(0));
    lemma_lt_at("text-filtering-version"@, "use-native-transport"@, 0);
    assert(s[62] == "use-native-transport"@ && s[63] == "view-distance"@);
    assert("use-native-transport"@.take(0) =~= "view-distance"@.take(0));
    lemma_lt_at("use-native-transport"@, "view-distance"@, 0);
    assert(s[63] == "view-distance"@ && s[64] == "white-list"@);
    assert("view-distance"@.take(0) =~= "white-list"@.take(0));
    lemma_lt_at("view-distance"@, "white-list"@, 0);
    lemma_ascending_distinct(s);
}

/// A configuration whose text reads back unchanged with this header
/// timestamp: the timestamp holds no line feed, every string setting is a
/// clean value, and every unknown key and its value are clean (see
/// [`clean_key`] and [`clean_value`]).
pub open spec fn savable(c: ServerConfig, timestamp: Seq<char>) -> bool {
    &&& no_newline(timestamp)
    &&& clean_value(c.server_ip@)
    &&& clean_value(c.gamemode@)
    &&& clean_value(c.difficulty@)
    &&& clean_value(c.level_name@)
    &&& clean_value(c.level_seed@)
    &&& clean_value(c.motd@)
    &&& clean_value(c.rcon_password@)
    &&& clean_value(c.resource_pack@)
    &&& clean_value(c.resource_pack_sha1@)
    &&& clean_value(c.resource_pack_prompt@)
    &&& clean_value(c.management_server_host@)
    &&& clean_value(c.management_server_secret@)
    &&& clean_value(c.bug_report_link@)
    &&& clean_value(c.region_file_compression@)
    &&& clean_value(c.text_filtering_config@)
    &&& clean_value(c.initial_enabled_packs@)
    &&& clean_value(c.initial_disabled_packs@)
    &&& forall|k: Seq<char>|
        #[trigger] c.unknown().contains_key(k) ==> clean_key(k) && clean_value(c.unknown()[k])
}

/// The known keys server-port to use-native-transport are clean keys.
proof fn lemma_clean_keys_0()
    ensures
        clean_key("server-port"@),
        clean_key("server-ip"@),
        clean_key("online-mode"@),
        clean_key("prevent-proxy-connections"@),
        clean_key("network-compression-threshold"@),
        clean_key("use-native-transport"@),
{
    reveal_strlit("server-port");
    reveal_strlit("server-ip");
    reveal_strlit("online-mode");
    reveal_strlit("prevent-proxy-connections");
    reveal_strlit("network-compression-threshold");
    reveal_strlit("use-native-transport");
}

/// The known keys rate-limit to max-players are clean keys.
proof fn lemma_clean_keys_1()
    ensures
        clean_key("rate-limit"@),
        clean_key("gamemode"@),
        clean_key("difficulty"@),
        clean_key("hardcore"@),
        clean_key("force-gamemode"@),
        clean_key("max-players"@),
{
    reveal_strlit("rate-limit");
    reveal_strlit("gamemode");
    reveal_strlit("difficulty");
    reveal_strlit("hardcore");
    reveal_strlit("force-gamemode");
    reveal_strlit("max-players");
}

/// The known keys view-distance to level-name are clean keys.
proof fn lemma_clean_keys_2()
    ensures
        clean_key("view-distance"@),
        clean_key("simulation-distance"@),
        clean_key("spawn-protection"@),
        clean_key("max-world-size"@),
        clean_key("allow-flight"@),
        clean_key("level-name"@),
{
    reveal_strlit("view-distance");
    reveal_strlit("simulation-distance");
    reveal_strlit("spawn-protection");
    reveal_strlit("max-world-size");
    reveal_strlit("allow-flight");
    reveal_strlit("level-name");
}

/// The known keys level-seed to spawn-monsters are clean keys.
proof fn lemma_clean_keys_3()
    ensures
        clean_key("level-seed"@),
        clean_key("generate-structures"@),
        clean_key("max-chained-neighbor-updates"@),
        clean_key("spawn-npcs"@),
        clean_key("spawn-animals"@),
        clean_key("spawn-monsters"@),
{
    reveal_strlit("level-seed");
    reveal_strlit("generate-structures");
    reveal_strlit("max-chained-neighbor-updates");
    reveal_strlit("spawn-npcs");
    reveal_strlit("spawn-animals");
    reveal_strlit("spawn-monsters");
}

/// The known keys allow-nether to white-list are clean keys.
proof fn lemma_clean_keys_4()
    ensures
        clean_key("allow-nether"@),
        clean_key("motd"@),
        clean_key("enable-status"@),
        clean_key("hide-online-players"@),
        clean_key("entity-broadcast-range-percentage"@),
        clean_key("white-list"@),
{
    reveal_strlit("allow-nether");
    reveal_strlit("motd");
    reveal_strlit("enable-status");
    reveal_strlit("hide-online-players");
    reveal_strlit("entity-broadcast-range-percentage");
    reveal_strlit("white-list");
}

/// The known keys enforce-whitelist to max-tick-time are clean keys.
proof fn lemma_clean_keys_5()
    ensures
        clean_key("enforce-whitelist"@),
        clean_key("op-permission-level"@),
        clean_key("function-permission-level"@),
        clean_key("enforce-secure-profile"@),
        clean_key("log-ips"@),
        clean_key("max-tick-time"@),
{
    reveal_strlit("enforce-whitelist");
    reveal_strlit("op-permission-level");
    reveal_strlit("function-permission-level");
    reveal_strlit("enforce-secure-profile");
    reveal_strlit("log-ips");
    reveal_strlit("max-tick-time");
}

/// The known keys player-idle-timeout to rcon.password are clean keys.
proof fn lemma_clean_keys_6()
    ensures
        clean_key("player-idle-timeout"@),
        clean_key("broadcast-console-to-ops"@),
        clean_key("broadcast-rcon-to-ops"@),
        clean_key("enable-rcon"@),
        clean_key("rcon.port"@),
        clean_key("rcon.password"@),
{
    reveal_strlit("player-idle-timeout");
    reveal_strlit("broadcast-console-to-ops");
    reveal_strlit("broadcast-rcon-to-ops");
    reveal_strlit("enable-rcon");
    reveal_strlit("rcon.port");
    reveal_strlit("rcon.password");
}

/// The known keys enable-query to require-resource-pack are clean keys.
proof fn lemma_clean_keys_7()
    ensures
        clean_key("enable-query"@),
        clean_key("query.port"@),
        clean_key("resource-pack"@),
        clean_key("resource-pack-sha1"@),
        clean_key("resource-pack-prompt"@),
        clean_key("require-resource-pack"@),
{
    reveal_strlit("enable-query");
    reveal_strlit("query.port");
    reveal_strlit("resource-pack");
    reveal_strlit("resource-pack-sha1");
    reveal_strlit("resource-pack-prompt");
    reveal_strlit("require-resource-pack");
}

/// The known keys management-server-enabled to enable-code-of-conduct are clean keys.
proof fn lemma_clean_keys_8()
    ensures
        clean_key("management-server-enabled"@),
        clean_key("management-server-host"@),
        clean_key("management-server-port"@),
        clean_key("management-server-secret"@),
        clean_key("management-server-tls-enabled"@),
        clean_key("enable-code-of-conduct"@),
{
    reveal_strlit("management-server-enabled");
    reveal_strlit("management-server-host");
    reveal_strlit("management-server-port");
    reveal_strlit("management-server-secret");
    reveal_strlit("management-server-tls-enabled");
    reveal_strlit("enable-code-of-conduct");
}

/// The known keys bug-report-link to text-filtering-version are clean keys.
proof fn lemma_clean_keys_9()
    ensures
        clean_key("bug-report-link"@),
        clean_key("sync-chunk-writes"@),
        clean_key("region-file-compression"@),
        clean_key("enable-jmx-monitoring"@),
        clean_key("text-filtering-config"@),
        clean_key("text-filtering-version"@),
{
    reveal_strlit("bug-report-link");
    reveal_strlit("sync-chunk-writes");
    reveal_strlit("region-file-compression");
    reveal_strlit("enable-jmx-monitoring");
    reveal_strlit("text-filtering-config");
    reveal_strlit("text-filtering-version");
}

/// The known keys accepts-transfers to status-heartbeat-interval are clean keys.
proof fn lemma_clean_keys_10()
    ensures
        clean_key("accepts-transfers"@),
        clean_key("pause-when-empty-seconds"@),
        clean_key("initial-enabled-packs"@),
        clean_key("initial-disabled-packs"@),
        clean_key("status-heartbeat-interval"@),
{
    reveal_strlit("accepts-transfers");
    reveal_strlit("pause-when-empty-seconds");
    reveal_strlit("initial-enabled-packs");
    reveal_strlit("initial-disabled-packs");
    reveal_strlit("status-heartbeat-interval");
}

/// Appending the pairs of the networking keys keeps the pairs clean.
proof fn lemma_network_clean(c: ServerConfig, timestamp: Seq<char>, p0: Seq<(Seq<char>, Seq<char>)>)
    requires
        savable(c, timestamp),
        all_clean(p0),
    ensures
        all_clean(p0.push(("server-port"@, int_digits(c.server_port as int))).push(("server-ip"@, c.server_ip@)).push(("online-mode"@, bool_text(c.online_mode))).push(("prevent-proxy-connections"@, bool_text(c.prevent_proxy_connections))).push(("network-compression-threshold"@, int_digits(c.network_compression_threshold as int))).push(("use-native-transport"@, bool_text(c.use_native_transport))).push(("rate-limit"@, int_digits(c.rate_limit as int)))),
{
    lemma_clean_keys_0();
    lemma_clean_keys_1();
    lemma_int_digits_parse(c.server_port as int, 0, 65535, false);
    lemma_all_clean_push(p0, ("server-port"@, int_digits(c.server_port as int)));
    let p1 = p0.push(("server-port"@, int_digits(c.server_port as int)));
    lemma_all_clean_push(p1, ("server-ip"@, c.server_ip@));
    let p2 = p1.push(("server-ip"@, c.server_ip@));
    lemma_bool_text_clean(c.online_mode);
    lemma_all_clean_push(p2, ("online-mode"@, bool_text(c.online_mode)));
    let p3 = p2.push(("online-mode"@, bool_text(c.online_mode)));
    lemma_bool_text_clean(c.prevent_proxy_connections);
    lemma_all_clean_push(p3, ("prevent-proxy-connections"@, bool_text(c.prevent_proxy_connections)));
    let p4 = p3.push(("prevent-proxy-connections"@, bool_text(c.prevent_proxy_connections)));
    lemma_int_digits_parse(c.network_compression_threshold as int, -2147483648, 2147483647, true);
    lemma_all_clean_push(p4, ("network-compression-threshold"@, int_digits(c.network_compression_threshold as int)));
    let p5 = p4.push(("network-compression-threshold"@, int_digits(c.network_compression_threshold as int)));
    lemma_bool_text_clean(c.use_native_transport);
    lemma_all_clean_push(p5, ("use-native-transport"@, bool_text(c.use_native_transport)));
    let p6 = p5.push(("use-native-transport"@, bool_text(c.use_native_transport)));
    lemma_int_digits_parse(c.rate_limit as int, -2147483648, 2147483647, true);
    lemma_all_clean_push(p6, ("rate-limit"@, int_digits(c.rate_limit as int)));
    let p7 = p6.push(("rate-limit"@, int_digits(c.rate_limit as int)));
}

/// Appending the pairs of the gameplay keys keeps the pairs clean.
proof fn lemma_gameplay_clean(c: ServerConfig, timestamp: Seq<char>, p0: Seq<(Seq<char>, Seq<char>)>)
    requires
        savable(c, timestamp),
        all_clean(p0),
    ensures
        all_clean(p0.push(("gamemode"@, c.gamemode@)).push(("difficulty"@, c.difficulty@)).push(("hardcore"@, bool_text(c.hardcore))).push(("force-gamemode"@, bool_text(c.force_gamemode))).push(("max-players"@, int_digits(c.max_players as int))).push(("view-distance"@, int_digits(c.view_distance as int))).push(("simulation-distance"@, int_digits(c.simulation_distance as int))).push(("spawn-protection"@, int_digits(c.spawn_protection as int))).push(("max-world-size"@, int_digits(c.max_world_size as int))).push(("allow-flight"@, bool_text(c.allow_flight)))),
{
    lemma_clean_keys_1();
    lemma_clean_keys_2();
    lemma_all_clean_push(p0, ("gamemode"@, c.gamemode@));
    let p1 = p0.push(("gamemode"@, c.gamemode@));
    lemma_all_clean_push(p1, ("difficulty"@, c.difficulty@));
    let p2 = p1.push(("difficulty"@, c.difficulty@));
    lemma_bool_text_clean(c.hardcore);
    lemma_all_clean_push(p2, ("hardcore"@, bool_text(c.hardcore)));
    let p3 = p2.push(("hardcore"@, bool_text(c.hardcore)));
    lemma_bool_text_clean(c.force_gamemode);
    lemma_all_clean_push(p3, ("force-gamemode"@, bool_text(c.force_gamemode)));
    let p4 = p3.push(("force-gamemode"@, bool_text(c.force_gamemode)));
    lemma_int_digits_parse(c.max_players as int, 0, 4294967295, false);
    lemma_all_clean_push(p4, ("max-players"@, int_digits(c.max_players as int)));
    let p5 = p4.push(("max-players"@, int_digits(c.max_players as int)));
    lemma_int_digits_parse(c.view_distance as int, 0, 4294967295, false);
    lemma_all_clean_push(p5, ("view-distance"@, int_digits(c.view_distance as int)));
    let p6 = p5.push(("view-distance"@, int_digits(c.view_distance as int)));
    lemma_int_digits_parse(c.simulation_distance as int, 0, 4294967295, false);
    lemma_all_clean_push(p6, ("simulation-distance"@, int_digits(c.simulation_distance as int)));
    let p7 = p6.push(("simulation-distance"@, int_digits(c.simulation_distance as int)));
    lemma_int_digits_parse(c.spawn_protection as int, 0, 4294967295, false);
    lemma_all_clean_push(p7, ("spawn-protection"@, int_digits(c.spawn_protection as int)));
    let p8 = p7.push(("spawn-protection"@, int_digits(c.spawn_protection as int)));
    lemma_int_digits_parse(c.max_world_size as int, -2147483648, 2147483647, true);
    lemma_all_clean_push(p8, ("max-world-size"@, int_digits(c.max_world_size as int)));
    let p9 = p8.push(("max-world-size"@, int_digits(c.max_world_size as int)));
    lemma_bool_text_clean(c.allow_flight);
    lemma_all_clean_push(p9, ("allow-flight"@, bool_text(c.allow_flight)));
    let p10 = p9.push(("allow-flight"@, bool_text(c.allow_flight)));
}

/// Appending the pairs of the world generation keys keeps the pairs clean.
proof fn lemma_world_clean(c: ServerConfig, timestamp: Seq<char>, p0: Seq<(Seq<char>, Seq<char>)>)
    requires
        savable(c, timestamp),
        all_clean(p0),
    ensures
        all_clean(p0.push(("level-name"@, c.level_name@)).push(("level-seed"@, c.level_seed@)).push(("generate-structures"@, bool_text(c.generate_structures))).push(("max-chained-neighbor-updates"@, int_digits(c.max_chained_neighbor_updates as int))).push(("spawn-npcs"@, bool_text(c.spawn_npcs))).push(("spawn-animals"@, bool_text(c.spawn_animals))).push(("spawn-monsters"@, bool_text(c.spawn_monsters))).push(("allow-nether"@, bool_text(c.allow_nether)))),
{
    lemma_clean_keys_2();
    lemma_clean_keys_3();
    lemma_clean_keys_4();
    lemma_all_clean_push(p0, ("level-name"@, c.level_name@));
    let p1 = p0.push(("level-name"@, c.level_name@));
    lemma_all_clean_push(p1, ("level-seed"@, c.level_seed@));
    let p2 = p1.push(("level-seed"@, c.level_seed@));
    lemma_bool_text_clean(c.generate_structures);
    lemma_all_clean_push(p2, ("generate-structures"@, bool_text(c.generate_structures)));
    let p3 = p2.push(("generate-structures"@, bool_text(c.generate_structures)));
    lemma_int_digits_parse(c.max_chained_neighbor_updates as int, -2147483648, 2147483647, true);
    lemma_all_clean_push(p3, ("max-chained-neighbor-updates"@, int_digits(c.max_chained_neighbor_updates as int)));
    let p4 = p3.push(("max-chained-neighbor-updates"@, int_digits(c.max_chained_neighbor_updates as int)));
    lemma_bool_text_clean(c.spawn_npcs);
    lemma_all_clean_push(p4, ("spawn-npcs"@, bool_text(c.spawn_npcs)));
    let p5 = p4.push(("spawn-npcs"@, bool_text(c.spawn_npcs)));
    lemma_bool_text_clean(c.spawn_animals);
    lemma_all_clean_push(p5, ("spawn-animals"@, bool_text(c.spawn_animals)));
    let p6 = p5.push(("spawn-animals"@, bool_text(c.spawn_animals)));
    lemma_bool_text_clean(c.spawn_monsters);
    lemma_all_clean_push(p6, ("spawn-monsters"@, bool_text(c.spawn_monsters)));
    let p7 = p6.push(("spawn-monsters"@, bool_text(c.spawn_monsters)));
    lemma_bool_text_clean(c.allow_nether);
    lemma_all_clean_push(p7, ("allow-nether"@, bool_text(c.allow_nether)));
    let p8 = p7.push(("allow-nether"@, bool_text(c.allow_nether)));
}

/// Appending the pairs of the server-list display keys keeps the pairs clean.
proof fn lemma_display_clean(c: ServerConfig, timestamp: Seq<char>, p0: Seq<(Seq<char>, Seq<char>)>)
    requires
        savable(c, timestamp),
        all_clean(p0),
    ensures
        all_clean(p0.push(("motd"@, c.motd@)).push(("enable-status"@, bool_text(c.enable_status))).push(("hide-online-players"@, bool_text(c.hide_online_players))).push(("entity-broadcast-range-percentage"@, int_digits(c.entity_broadcast_range_percentage as int)))),
{
    lemma_clean_keys_4();
    lemma_all_clean_push(p0, ("motd"@, c.motd@));
    let p1 = p0.push(("motd"@, c.motd@));
    lemma_bool_text_clean(c.enable_status);
    lemma_all_clean_push(p1, ("enable-status"@, bool_text(c.enable_status)));
    let p2 = p1.push(("enable-status"@, bool_text(c.enable_status)));
    lemma_bool_text_clean(c.hide_online_players);
    lemma_all_clean_push(p2, ("hide-online-players"@, bool_text(c.hide_online_players)));
    let p3 = p2.push(("hide-online-players"@, bool_text(c.hide_online_players)));
    lemma_int_digits_parse(c.entity_broadcast_range_percentage as int, -2147483648, 2147483647, true);
    lemma_all_clean_push(p3, ("entity-broadcast-range-percentage"@, int_digits(c.entity_broadcast_range_percentage as int)));
    let p4 = p3.push(("entity-broadcast-range-percentage"@, int_digits(c.entity_broadcast_range_percentage as int)));
}

/// Appending the pairs of the administration and security keys keeps the pairs clean.
proof fn lemma_admin_clean(c: ServerConfig, timestamp: Seq<char>, p0: Seq<(Seq<char>, Seq<char>)>)
    requires
        savable(c, timestamp),
        all_clean(p0),
    ensures
        all_clean(p0.push(("white-list"@, bool_text(c.white_list))).push(("enforce-whitelist"@, bool_text(c.enforce_whitelist))).push(("op-permission-level"@, int_digits(c.op_permission_level as int))).push(("function-permission-level"@, int_digits(c.function_permission_level as int))).push(("enforce-secure-profile"@, bool_text(c.enforce_secure_profile))).push(("log-ips"@, bool_text(c.log_ips))).push(("max-tick-time"@, int_digits(c.max_tick_time as int))).push(("player-idle-timeout"@, int_digits(c.player_idle_timeout as int))).push(("broadcast-console-to-ops"@, bool_text(c.broadcast_console_to_ops))).push(("broadcast-rcon-to-ops"@, bool_text(c.broadcast_rcon_to_ops)))),
{
    lemma_clean_keys_4();
    lemma_clean_keys_5();
    lemma_clean_keys_6();
    lemma_bool_text_clean(c.white_list);
    lemma_all_clean_push(p0, ("white-list"@, bool_text(c.white_list)));
    let p1 = p0.push(("white-list"@, bool_text(c.white_list)));
    lemma_bool_text_clean(c.enforce_whitelist);
    lemma_all_clean_push(p1, ("enforce-whitelist"@, bool_text(c.enforce_whitelist)));
    let p2 = p1.push(("enforce-whitelist"@, bool_text(c.enforce_whitelist)));
    lemma_int_digits_parse(c.op_permission_level as int, -2147483648, 2147483647, true);
    lemma_all_clean_push(p2, ("op-permission-level"@, int_digits(c.op_permission_level as int)));
    let p3 = p2.push(("op-permission-level"@, int_digits(c.op_permission_level as int)));
    lemma_int_digits_parse(c.function_permission_level as int, -2147483648, 2147483647, true);
    lemma_all_clean_push(p3, ("function-permission-level"@, int_digits(c.function_permission_level as int)));
    let p4 = p3.push(("function-permission-level"@, int_digits(c.function_permission_level as int)));
    lemma_bool_text_clean(c.enforce_secure_profile);
    lemma_all_clean_push(p4, ("enforce-secure-profile"@, bool_text(c.enforce_secure_profile)));
    let p5 = p4.push(("enforce-secure-profile"@, bool_text(c.enforce_secure_profile)));
    lemma_bool_text_clean(c.log_ips);
    lemma_all_clean_push(p5, ("log-ips"@, bool_text(c.log_ips)));
    let p6 = p5.push(("log-ips"@, bool_text(c.log_ips)));
    lemma_int_digits_parse(c.max_tick_time as int, -9223372036854775808, 9223372036854775807, true);
    lemma_all_clean_push(p6, ("max-tick-time"@, int_digits(c.max_tick_time as int)));
    let p7 = p6.push(("max-tick-time"@, int_digits(c.max_tick_time as int)));
    lemma_int_digits_parse(c.player_idle_timeout as int, -2147483648, 2147483647, true);
    lemma_all_clean_push(p7, ("player-idle-timeout"@, int_digits(c.player_idle_timeout as int)));
    let p8 = p7.push(("player-idle-timeout"@, int_digits(c.player_idle_timeout as int)));
    lemma_bool_text_clean(c.broadcast_console_to_ops);
    lemma_all_clean_push(p8, ("broadcast-console-to-ops"@, bool_text(c.broadcast_console_to_ops)));
    let p9 = p8.push(("broadcast-console-to-ops"@, bool_text(c.broadcast_console_to_ops)));
    lemma_bool_text_clean(c.broadcast_rcon_to_ops);
    lemma_all_clean_push(p9, ("broadcast-rcon-to-ops"@, bool_text(c.broadcast_rcon_to_ops)));
    let p10 = p9.push(("broadcast-rcon-to-ops"@, bool_text(c.broadcast_rcon_to_ops)));
}

/// Appending the pairs of the remote console keys keeps the pairs clean.
proof fn lemma_rcon_clean(c: ServerConfig, timestamp: Seq<char>, p0: Seq<(Seq<char>, Seq<char>)>)
    requires
        savable(c, timestamp),
        all_clean(p0),
    ensures
        all_clean(p0.push(("enable-rcon"@, bool_text(c.enable_rcon))).push(("rcon.port"@, int_digits(c.rcon_port as int))).push(("rcon.password"@, c.rcon_password@))),
{
    lemma_clean_keys_6();
    lemma_bool_text_clean(c.enable_rcon);
    lemma_all_clean_push(p0, ("enable-rcon"@, bool_text(c.enable_rcon)));
    let p1 = p0.push(("enable-rcon"@, bool_text(c.enable_rcon)));
    lemma_int_digits_parse(c.rcon_port as int, 0, 65535, false);
    lemma_all_clean_push(p1, ("rcon.port"@, int_digits(c.rcon_port as int)));
    let p2 = p1.push(("rcon.port"@, int_digits(c.rcon_port as int)));
    lemma_all_clean_push(p2, ("rcon.password"@, c.rcon_password@));
    let p3 = p2.push(("rcon.password"@, c.rcon_password@));
}

/// Appending the pairs of the query protocol keys keeps the pairs clean.
proof fn lemma_query_clean(c: ServerConfig, timestamp: Seq<char>, p0: Seq<(Seq<char>, Seq<char>)>)
    requires
        savable(c, timestamp),
        all_clean(p0),
    ensures
        all_clean(p0.push(("enable-query"@, bool_text(c.enable_query))).push(("query.port"@, int_digits(c.query_port as int)))),
{
    lemma_clean_keys_7();
    lemma_bool_text_clean(c.enable_query);
    lemma_all_clean_push(p0, ("enable-query"@, bool_text(c.enable_query)));
    let p1 = p0.push(("enable-query"@, bool_text(c.enable_query)));
    lemma_int_digits_parse(c.query_port as int, 0, 65535, false);
    lemma_all_clean_push(p1, ("query.port"@, int_digits(c.query_port as int)));
    let p2 = p1.push(("query.port"@, int_digits(c.query_port as int)));
}

/// Appending the pairs of the resource pack keys keeps the pairs clean.
proof fn lemma_resource_pack_clean(c: ServerConfig, timestamp: Seq<char>, p0: Seq<(Seq<char>, Seq<char>)>)
    requires
        savable(c, timestamp),
        all_clean(p0),
    ensures
        all_clean(p0.push(("resource-pack"@, c.resource_pack@)).push(("resource-pack-sha1"@, c.resource_pack_sha1@)).push(("resource-pack-prompt"@, c.resource_pack_prompt@)).push(("require-resource-pack"@, bool_text(c.require_resource_pack)))),
{
    lemma_clean_keys_7();
    lemma_all_clean_push(p0, ("resource-pack"@, c.resource_pack@));
    let p1 = p0.push(("resource-pack"@, c.resource_pack@));
    lemma_all_clean_push(p1, ("resource-pack-sha1"@, c.resource_pack_sha1@));
    let p2 = p1.push(("resource-pack-sha1"@, c.resource_pack_sha1@));
    lemma_all_clean_push(p2, ("resource-pack-prompt"@, c.resource_pack_prompt@));
    let p3 = p2.push(("resource-pack-prompt"@, c.resource_pack_prompt@));
    lemma_bool_text_clean(c.require_resource_pack);
    lemma_all_clean_push(p3, ("require-resource-pack"@, bool_text(c.require_resource_pack)));
    let p4 = p3.push(("require-resource-pack"@, bool_text(c.require_resource_pack)));
}

/// Appending the pairs of the management server keys keeps the pairs clean.
proof fn lemma_management_clean(c: ServerConfig, timestamp: Seq<char>, p0: Seq<(Seq<char>, Seq<char>)>)
    requires
        savable(c, timestamp),
        all_clean(p0),
    ensures
        all_clean(p0.push(("management-server-enabled"@, bool_text(c.management_server_enabled))).push(("management-server-host"@, c.management_server_host@)).push(("management-server-port"@, int_digits(c.management_server_port as int))).push(("management-server-secret"@, c.management_server_secret@)).push(("management-server-tls-enabled"@, bool_text(c.management_server_tls_enabled)))),
{
    lemma_clean_keys_8();
    lemma_bool_text_clean(c.management_server_enabled);
    lemma_all_clean_push(p0, ("management-server-enabled"@, bool_text(c.management_server_enabled)));
    let p1 = p0.push(("management-server-enabled"@, bool_text(c.management_server_enabled)));
    lemma_all_clean_push(p1, ("management-server-host"@, c.management_server_host@));
    let p2 = p1.push(("management-server-host"@, c.management_server_host@));
    lemma_int_digits_parse(c.management_server_port as int, 0, 65535, false);
    lemma_all_clean_push(p2, ("management-server-port"@, int_digits(c.management_server_port as int)));
    let p3 = p2.push(("management-server-port"@, int_digits(c.management_server_port as int)));
    lemma_all_clean_push(p3, ("management-server-secret"@, c.management_server_secret@));
    let p4 = p3.push(("management-server-secret"@, c.management_server_secret@));
    lemma_bool_text_clean(c.management_server_tls_enabled);
    lemma_all_clean_push(p4, ("management-server-tls-enabled"@, bool_text(c.management_server_tls_enabled)));
    let p5 = p4.push(("management-server-tls-enabled"@, bool_text(c.management_server_tls_enabled)));
}

/// Appending the pairs of the code of conduct keys keeps the pairs clean.
proof fn lemma_code_of_conduct_clean(c: ServerConfig, timestamp: Seq<char>, p0: Seq<(Seq<char>, Seq<char>)>)
    requires
        savable(c, timestamp),
        all_clean(p0),
    ensures
        all_clean(p0.push(("enable-code-of-conduct"@, bool_text(c.enable_code_of_conduct))).push(("bug-report-link"@, c.bug_report_link@))),
{
    lemma_clean_keys_8();
    lemma_clean_keys_9();
    lemma_bool_text_clean(c.enable_code_of_conduct);
    lemma_all_clean_push(p0, ("enable-code-of-conduct"@, bool_text(c.enable_code_of_conduct)));
    let p1 = p0.push(("enable-code-of-conduct"@, bool_text(c.enable_code_of_conduct)));
    lemma_all_clean_push(p1, ("bug-report-link"@, c.bug_report_link@));
    let p2 = p1.push(("bug-report-link"@, c.bug_report_link@));
}

/// Appending the pairs of the remaining keys keeps the pairs clean.
proof fn lemma_misc_clean(c: ServerConfig, timestamp: Seq<char>, p0: Seq<(Seq<char>, Seq<char>)>)
    requires
        savable(c, timestamp),
        all_clean(p0),
    ensures
        all_clean(p0.push(("sync-chunk-writes"@, bool_text(c.sync_chunk_writes))).push(("region-file-compression"@, c.region_file_compression@)).push(("enable-jmx-monitoring"@, bool_text(c.enable_jmx_monitoring))).push(("text-filtering-config"@, c.text_filtering_config@)).push(("text-filtering-version"@, int_digits(c.text_filtering_version as int))).push(("accepts-transfers"@, bool_text(c.accepts_transfers))).push(("pause-when-empty-seconds"@, int_digits(c.pause_when_empty_seconds as int))).push(("initial-enabled-packs"@, c.initial_enabled_packs@)).push(("initial-disabled-packs"@, c.initial_disabled_packs@)).push(("status-heartbeat-interval"@, int_digits(c.status_heartbeat_interval as int)))),
{
    lemma_clean_keys_9();
    lemma_clean_keys_10();
    lemma_bool_text_clean(c.sync_chunk_writes);
    lemma_all_clean_push(p0, ("sync-chunk-writes"@, bool_text(c.sync_chunk_writes)));
    let p1 = p0.push(("sync-chunk-writes"@, bool_text(c.sync_chunk_writes)));
    lemma_all_clean_push(p1, ("region-file-compression"@, c.region_file_compression@));
    let p2 = p1.push(("region-file-compression"@, c.region_file_compression@));
    lemma_bool_text_clean(c.enable_jmx_monitoring);
    lemma_all_clean_push(p2, ("enable-jmx-monitoring"@, bool_text(c.enable_jmx_monitoring)));
    let p3 = p2.push(("enable-jmx-monitoring"@, bool_text(c.enable_jmx_monitoring)));
    lemma_all_clean_push(p3, ("text-filtering-config"@, c.text_filtering_config@));
    let p4 = p3.push(("text-filtering-config"@, c.text_filtering_config@));
    lemma_int_digits_parse(c.text_filtering_version as int, -2147483648, 2147483647, true);
    lemma_all_clean_push(p4, ("text-filtering-version"@, int_digits(c.text_filtering_version as int)));
    let p5 = p4.push(("text-filtering-version"@, int_digits(c.text_filtering_version as int)));
    lemma_bool_text_clean(c.accepts_transfers);
    lemma_all_clean_push(p5, ("accepts-transfers"@, bool_text(c.accepts_transfers)));
    let p6 = p5.push(("accepts-transfers"@, bool_text(c.accepts_transfers)));
    lemma_int_digits_parse(c.pause_when_empty_seconds as int, -2147483648, 2147483647, true);
    lemma_all_clean_push(p6, ("pause-when-empty-seconds"@, int_digits(c.pause_when_empty_seconds as int)));
    let p7 = p6.push(("pause-when-empty-seconds"@, int_digits(c.pause_when_empty_seconds as int)));
    lemma_all_clean_push(p7, ("initial-enabled-packs"@, c.initial_enabled_packs@));
    let p8 = p7.push(("initial-enabled-packs"@, c.initial_enabled_packs@));
    lemma_all_clean_push(p8, ("initial-disabled-packs"@, c.initial_disabled_packs@));
    let p9 = p8.push(("initial-disabled-packs"@, c.initial_disabled_packs@));
    lemma_int_digits_parse(c.status_heartbeat_interval as int, -2147483648, 2147483647, true);
    lemma_all_clean_push(p9, ("status-heartbeat-interval"@, int_digits(c.status_heartbeat_interval as int)));
    let p10 = p9.push(("status-heartbeat-interval"@, int_digits(c.status_heartbeat_interval as int)));
}

/// The known keys are clean keys and the texts of the values are clean.
proof fn lemma_known_clean(c: ServerConfig, timestamp: Seq<char>)
    requires
        savable(c, timestamp),
    ensures
        all_clean(known_pairs(c)),
{
    reveal(known_pairs);
    let q0 = Seq::<(Seq<char>, Seq<char>)>::empty();
    lemma_all_clean_empty();
    lemma_network_clean(c, timestamp, q0);
    let q1 = q0.push(("server-port"@, int_digits(c.server_port as int))).push(("server-ip"@, c.server_ip@)).push(("online-mode"@, bool_text(c.online_mode))).push(("prevent-proxy-connections"@, bool_text(c.prevent_proxy_connections))).push(("network-compression-threshold"@, int_digits(c.network_compression_threshold as int))).push(("use-native-transport"@, bool_text(c.use_native_transport))).push(("rate-limit"@, int_digits(c.rate_limit as int)));
    lemma_gameplay_clean(c, timestamp, q1);
    let q2 = q1.push(("gamemode"@, c.gamemode@)).push(("difficulty"@, c.difficulty@)).push(("hardcore"@, bool_text(c.hardcore))).push(("force-gamemode"@, bool_text(c.force_gamemode))).push(("max-players"@, int_digits(c.max_players as int))).push(("view-distance"@, int_digits(c.view_distance as int))).push(("simulation-distance"@, int_digits(c.simulation_distance as int))).push(("spawn-protection"@, int_digits(c.spawn_protection as int))).push(("max-world-size"@, int_digits(c.max_world_size as int))).push(("allow-flight"@, bool_text(c.allow_flight)));
    lemma_world_clean(c, timestamp, q2);
    let q3 = q2.push(("level-name"@, c.level_name@)).push(("level-seed"@, c.level_seed@)).push(("generate-structures"@, bool_text(c.generate_structures))).push(("max-chained-neighbor-updates"@, int_digits(c.max_chained_neighbor_updates as int))).push(("spawn-npcs"@, bool_text(c.spawn_npcs))).push(("spawn-animals"@, bool_text(c.spawn_animals))).push(("spawn-monsters"@, bool_text(c.spawn_monsters))).push(("allow-nether"@, bool_text(c.allow_nether)));
    lemma_display_clean(c, timestamp, q3);
    let q4 = q3.push(("motd"@, c.motd@)).push(("enable-status"@, bool_text(c.enable_status))).push(("hide-online-players"@, bool_text(c.hide_online_players))).push(("entity-broadcast-range-percentage"@, int_digits(c.entity_broadcast_range_percentage as int)));
    lemma_admin_clean(c, timestamp, q4);
    let q5 = q4.push(("white-list"@, bool_text(c.white_list))).push(("enforce-whitelist"@, bool_text(c.enforce_whitelist))).push(("op-permission-level"@, int_digits(c.op_permission_level as int))).push(("function-permission-level"@, int_digits(c.function_permission_level as int))).push(("enforce-secure-profile"@, bool_text(c.enforce_secure_profile))).push(("log-ips"@, bool_text(c.log_ips))).push(("max-tick-time"@, int_digits(c.max_tick_time as int))).push(("player-idle-timeout"@, int_digits(c.player_idle_timeout as int))).push(("broadcast-console-to-ops"@, bool_text(c.broadcast_console_to_ops))).push(("broadcast-rcon-to-ops"@, bool_text(c.broadcast_rcon_to_ops)));
    lemma_rcon_clean(c, timestamp, q5);
    let q6 = q5.push(("enable-rcon"@, bool_text(c.enable_rcon))).push(("rcon.port"@, int_digits(c.rcon_port as int))).push(("rcon.password"@, c.rcon_password@));
    lemma_query_clean(c, timestamp, q6);
    let q7 = q6.push(("enable-query"@, bool_text(c.enable_query))).push(("query.port"@, int_digits(c.query_port as int)));
    lemma_resource_pack_clean(c, timestamp, q7);
    let q8 = q7.push(("resource-pack"@, c.resource_pack@)).push(("resource-pack-sha1"@, c.resource_pack_sha1@)).push(("resource-pack-prompt"@, c.resource_pack_prompt@)).push(("require-resource-pack"@, bool_text(c.require_resource_pack)));
    lemma_management_clean(c, timestamp, q8);
    let q9 = q8.push(("management-server-enabled"@, bool_text(c.management_server_enabled))).push(("management-server-host"@, c.management_server_host@)).push(("management-server-port"@, int_digits(c.management_server_port as int))).push(("management-server-secret"@, c.management_server_secret@)).push(("management-server-tls-enabled"@, bool_text(c.management_server_tls_enabled)));
    lemma_code_of_conduct_clean(c, timestamp, q9);
    let q10 = q9.push(("enable-code-of-conduct"@, bool_text(c.enable_code_of_conduct))).push(("bug-report-link"@, c.bug_report_link@));
    lemma_misc_clean(c, timestamp, q10);
    let q11 = q10.push(("sync-chunk-writes"@, bool_text(c.sync_chunk_writes))).push(("region-file-compression"@, c.region_file_compression@)).push(("enable-jmx-monitoring"@, bool_text(c.enable_jmx_monitoring))).push(("text-filtering-config"@, c.text_filtering_config@)).push(("text-filtering-version"@, int_digits(c.text_filtering_version as int))).push(("accepts-transfers"@, bool_text(c.accepts_transfers))).push(("pause-when-empty-seconds"@, int_digits(c.pause_when_empty_seconds as int))).push(("initial-enabled-packs"@, c.initial_enabled_packs@)).push(("initial-disabled-packs"@, c.initial_disabled_packs@)).push(("status-heartbeat-interval"@, int_digits(c.status_heartbeat_interval as int)));
    assert(known_pairs(c) == q11);
}

/// The first header line, without its line feed.
pub open spec fn header_line() -> Seq<char> {
    "#Minecraft server properties
"@.drop_last()
}

/// The lines of the saved text: the two header comment lines, the known
/// `key=value` lines, and — when there are unknown keys — a blank line and
/// their lines in ascending key order.
pub open spec fn saved_lines(c: ServerConfig, timestamp: Seq<char>) -> Seq<Seq<char>> {
    let unknown = spec_sorted_entries(c.unknown());
    seq![header_line(), seq!['#'] + timestamp] + kv_lines(known_pairs(c)) + if unknown.len() == 0 {
        Seq::<Seq<char>>::empty()
    } else {
        seq![Seq::<char>::empty()] + kv_lines(unknown)
    }
}

/// The saved text is the text of the saved lines.
proof fn lemma_saved_text(c: ServerConfig, timestamp: Seq<char>)
    ensures
        ServerConfig::spec_properties_text(c, timestamp) == lines_text(saved_lines(c, timestamp)),
{
    reveal_strlit("#Minecraft server properties\n");
    let full = "#Minecraft server properties\n"@;
    assert(full =~= header_line().push('\n'));
    let second = seq!['#'] + timestamp;
    let h = seq![header_line(), second];
    assert(h.drop_last() =~= seq![header_line()]);
    assert(seq![header_line()].drop_last() =~= Seq::<Seq<char>>::empty());
    assert(lines_text(Seq::<Seq<char>>::empty()) == Seq::<char>::empty());
    assert(lines_text(seq![header_line()]) == lines_text(seq![header_line()].drop_last()) + seq![
        header_line(),
    ].last().push('\n'));
    assert(lines_text(seq![header_line()]) =~= header_line().push('\n'));
    assert(lines_text(h) == lines_text(seq![header_line()]) + second.push('\n'));
    assert(lines_text(h) =~= (full.push('#') + timestamp).push('\n'));
    let kp = known_pairs(c);
    lemma_known_lines(c);
    lemma_pair_lines_text(kp);
    let up = spec_sorted_entries(c.unknown());
    let tail = if up.len() == 0 {
        Seq::<Seq<char>>::empty()
    } else {
        seq![Seq::<char>::empty()] + kv_lines(up)
    };
    if up.len() == 0 {
        assert(lines_text(tail) == Seq::<char>::empty());
        assert(unknown_section(up) == Seq::<char>::empty());
    } else {
        lemma_pair_lines_text(up);
        lemma_lines_text_append(seq![Seq::<char>::empty()], kv_lines(up));
        assert(seq![Seq::<char>::empty()].drop_last() =~= Seq::<Seq<char>>::empty());
        assert(lines_text(seq![Seq::<char>::empty()]) =~= seq!['\n']);
        assert(unknown_section(up) == seq!['\n'] + pair_lines(up));
        assert(lines_text(tail) == unknown_section(up));
    }
    lemma_lines_text_append(h, kv_lines(kp));
    lemma_lines_text_append(h + kv_lines(kp), tail);
    assert(saved_lines(c, timestamp) == h + kv_lines(kp) + tail);
    assert(ServerConfig::spec_properties_text(c, timestamp) =~= lines_text(h) + lines_text(kv_lines(kp))
        + lines_text(tail));
}

/// The saved text parses to the known pairs followed by the unknown keys.
proof fn lemma_saved_parse(c: ServerConfig, timestamp: Seq<char>)
    requires
        c.wf(),
        savable(c, timestamp),
    ensures
        spec_parse_properties(lines_text(saved_lines(c, timestamp))) == insert_all(
            known_map(c),
            spec_sorted_entries(c.unknown()),
        ),
{
    reveal_strlit("#Minecraft server properties\n");
    let kp = known_pairs(c);
    let up = spec_sorted_entries(c.unknown());
    let ls = saved_lines(c, timestamp);
    lemma_known_clean(c, timestamp);
    reveal(all_clean);
    c.unknown_keys.lemma_view_finite();
    lemma_sorted_listing_exists(c.unknown());
    lemma_sorted_listing_keys(up, c.unknown());
    assert forall|t: int| 0 <= t < up.len() implies clean_key(#[trigger] up[t].0) && clean_value(
        up[t].1,
    ) by {
        assert(c.unknown().contains_key(up[t].0));
    }
    let n = kp.len() as int;
    let u = up.len() as int;
    assert(kv_lines(kp).len() == n);
    assert(kv_lines(up).len() == u);
    assert(header_line() =~= seq!['#', 'M', 'i', 'n', 'e', 'c', 'r', 'a', 'f', 't', ' ', 's', 'e', 'r', 'v', 'e', 'r', ' ', 'p', 'r', 'o', 'p', 'e', 'r', 't', 'i', 'e', 's']);
    // every line is free of line feeds and does not continue
    assert forall|t: int| 0 <= t < ls.len() implies no_newline(#[trigger] ls[t]) && single_line(ls[t]) by {
        if t == 0 {
            lemma_comment_line(Map::empty(), ls[t]);
        } else if t == 1 {
            assert(ls[t] == seq!['#'] + timestamp);
            assert forall|i: int| 0 <= i < ls[t].len() implies ls[t][i] != '\n' by {
                if i > 0 {
                    assert(ls[t][i] == timestamp[i - 1]);
                }
            }
            lemma_comment_line(Map::empty(), ls[t]);
        } else if t < 2 + n {
            assert(ls[t] == kv_lines(kp)[t - 2]);
            lemma_kv_line(Map::empty(), kp[t - 2].0, kp[t - 2].1);
        } else if t == 2 + n {
            assert(ls[t] == Seq::<char>::empty());
            lemma_comment_line(Map::empty(), ls[t]);
        } else {
            assert(ls[t] == kv_lines(up)[t - 3 - n]);
            lemma_kv_line(Map::empty(), up[t - 3 - n].0, up[t - 3 - n].1);
        }
    }
    lemma_split_lines_text(ls);
    let lines = ls.push(Seq::<char>::empty());
    assert forall|t: int| 0 <= t < lines.len() implies single_line(#[trigger] lines[t]) by {
        if t < ls.len() {
            assert(lines[t] == ls[t]);
        } else {
            lemma_comment_line(Map::empty(), lines[t]);
        }
    }
    let e = Map::<Seq<char>, Seq<char>>::empty();
    lemma_parse_fold(lines, 0, e);
    assert forall|t: int| 0 <= t < 2 implies (#[trigger] lines[t]).len() == 0 || lines[t][0] == '#' by {
        assert(lines[t] == ls[t]);
    }
    lemma_fold_comments(lines, 0, 2, e);
    assert(lines.subrange(2, 2 + n) =~= kv_lines(kp.skip(0)));
    assert(kp.take(0) =~= Seq::<(Seq<char>, Seq<char>)>::empty());
    lemma_fold_kv_lines(lines, 2, 2 + n, e, kp, Seq::empty());
    lemma_known_insert_all(c);
    let mk = known_map(c);
    let end = lines.len() as int;
    if u == 0 {
        assert(end == 3 + n);
        assert(lines[2 + n] == Seq::<char>::empty());
        lemma_fold_comments(lines, 2 + n, end, mk);
        assert(up =~= Seq::<(Seq<char>, Seq<char>)>::empty());
    } else {
        assert(end == 4 + n + u);
        assert(lines[2 + n] == Seq::<char>::empty());
        lemma_fold_comments(lines, 2 + n, 3 + n, mk);
        assert(lines.subrange(3 + n, 3 + n + u) =~= kv_lines(up.skip(0)));
        assert(up.take(0) =~= Seq::<(Seq<char>, Seq<char>)>::empty());
        lemma_fold_kv_lines(lines, 3 + n, 3 + n + u, mk, up, Seq::empty());
        assert(lines[3 + n + u] == Seq::<char>::empty());
        lemma_fold_comments(lines, 3 + n + u, end, insert_all(mk, up));
    }
}

/// Every key of [`known_map`] is a known key.
proof fn lemma_known_map_dom(c: ServerConfig)
    ensures
        known_map(c).dom() == known_keys(),
{
    reveal(known_map);
    assert(known_map(c).dom() =~= known_keys());
}

/// A map that agrees with [`known_map`] on the known keys gives back the
/// networking settings.
proof fn lemma_network_read_back(c: ServerConfig, m: Map<Seq<char>, Seq<char>>)
    requires
        forall|k: Seq<char>|
            #[trigger] known_keys().contains(k) ==> m.contains_key(k) == known_map(c).contains_key(k) && (
            known_map(c).contains_key(k) ==> m[k] == known_map(c)[k]),
    ensures
        c.server_port as int == prop_int(m, "server-port"@, 0, 65535, false, 25565),
        c.server_ip@ == prop_string(m, "server-ip"@, ""@),
        c.online_mode == prop_bool(m, "online-mode"@, true),
        c.prevent_proxy_connections == prop_bool(m, "prevent-proxy-connections"@, false),
        c.network_compression_threshold as int == prop_int(m, "network-compression-threshold"@, -2147483648, 2147483647, true, 256),
        c.use_native_transport == prop_bool(m, "use-native-transport"@, true),
        c.rate_limit as int == prop_int(m, "rate-limit"@, -2147483648, 2147483647, true, 0),
{
    reveal(known_map);
    lemma_known_keys_ascending();
    let s = sorted_known_keys();
    assert(s[52] == "server-port"@);
    assert(s[51] == "server-ip"@);
    assert(s[37] == "online-mode"@);
    assert(s[41] == "prevent-proxy-connections"@);
    assert(s[36] == "network-compression-threshold"@);
    assert(s[62] == "use-native-transport"@);
    assert(s[43] == "rate-limit"@);
    assert(s[17] == "gamemode"@);
    assert(s[6] == "difficulty"@);
    assert(s[19] == "hardcore"@);
    assert(s[15] == "force-gamemode"@);
    assert(s[32] == "max-players"@);
    assert(s[63] == "view-distance"@);
    assert(s[53] == "simulation-distance"@);
    assert(s[57] == "spawn-protection"@);
    assert(s[34] == "max-world-size"@);
    assert(s[1] == "allow-flight"@);
    assert(s[23] == "level-name"@);
    assert(s[24] == "level-seed"@);
    assert(s[18] == "generate-structures"@);
    assert(s[31] == "max-chained-neighbor-updates"@);
    assert(s[56] == "spawn-npcs"@);
    assert(s[54] == "spawn-animals"@);
    assert(s[55] == "spawn-monsters"@);
    assert(s[2] == "allow-nether"@);
    assert(s[35] == "motd"@);
    assert(s[11] == "enable-status"@);
    assert(s[20] == "hide-online-players"@);
    assert(s[14] == "entity-broadcast-range-percentage"@);
    assert(s[64] == "white-list"@);
    assert(s[13] == "enforce-whitelist"@);
    assert(s[38] == "op-permission-level"@);
    assert(s[16] == "function-permission-level"@);
    assert(s[12] == "enforce-secure-profile"@);
    assert(s[25] == "log-ips"@);
    assert(s[33] == "max-tick-time"@);
    assert(s[40] == "player-idle-timeout"@);
    assert(s[3] == "broadcast-console-to-ops"@);
    assert(s[4] == "broadcast-rcon-to-ops"@);
    assert(s[10] == "enable-rcon"@);
    assert(s[45] == "rcon.port"@);
    assert(s[44] == "rcon.password"@);
    assert(s[9] == "enable-query"@);
    assert(s[42] == "query.port"@);
    assert(s[48] == "resource-pack"@);
    assert(s[50] == "resource-pack-sha1"@);
    assert(s[49] == "resource-pack-prompt"@);
    assert(s[47] == "require-resource-pack"@);
    assert(s[26] == "management-server-enabled"@);
    assert(s[27] == "management-server-host"@);
    assert(s[28] == "management-server-port"@);
    assert(s[29] == "management-server-secret"@);
    assert(s[30] == "management-server-tls-enabled"@);
    assert(s[7] == "enable-code-of-conduct"@);
    assert(s[5] == "bug-report-link"@);
    assert(s[59] == "sync-chunk-writes"@);
    assert(s[46] == "region-file-compression"@);
    assert(s[8] == "enable-jmx-monitoring"@);
    assert(s[60] == "text-filtering-config"@);
    assert(s[61] == "text-filtering-version"@);
    assert(s[0] == "accepts-transfers"@);
    assert(s[39] == "pause-when-empty-seconds"@);
    assert(s[22] == "initial-enabled-packs"@);
    assert(s[21] == "initial-disabled-packs"@);
    assert(s[58] == "status-heartbeat-interval"@);
    assert(known_keys().contains("server-port"@));
    assert(known_map(c).contains_key("server-port"@) && known_map(c)["server-port"@] == int_digits(c.server_port as int));
    lemma_int_digits_parse(c.server_port as int, 0, 65535, false);
    assert(known_keys().contains("server-ip"@));
    assert(known_map(c).contains_key("server-ip"@) && known_map(c)["server-ip"@] == c.server_ip@);
    assert(known_keys().contains("online-mode"@));
    assert(known_map(c).contains_key("online-mode"@) && known_map(c)["online-mode"@] == bool_text(c.online_mode));
    lemma_bool_text_clean(c.online_mode);
    assert(known_keys().contains("prevent-proxy-connections"@));
    assert(known_map(c).contains_key("prevent-proxy-connections"@) && known_map(c)["prevent-proxy-connections"@] == bool_text(c.prevent_proxy_connections));
    lemma_bool_text_clean(c.prevent_proxy_connections);
    assert(known_keys().contains("network-compression-threshold"@));
    assert(known_map(c).contains_key("network-compression-threshold"@) && known_map(c)["network-compression-threshold"@] == int_digits(c.network_compression_threshold as int));
    lemma_int_digits_parse(c.network_compression_threshold as int, -2147483648, 2147483647, true);
    assert(known_keys().contains("use-native-transport"@));
    assert(known_map(c).contains_key("use-native-transport"@) && known_map(c)["use-native-transport"@] == bool_text(c.use_native_transport));
    lemma_bool_text_clean(c.use_native_transport);
    assert(known_keys().contains("rate-limit"@));
    assert(known_map(c).contains_key("rate-limit"@) && known_map(c)["rate-limit"@] == int_digits(c.rate_limit as int));
    lemma_int_digits_parse(c.rate_limit as int, -2147483648, 2147483647, true);
}

/// A map that agrees with [`known_map`] on the known keys gives back the
/// gameplay settings.
proof fn lemma_gameplay_read_back(c: ServerConfig, m: Map<Seq<char>, Seq<char>>)
    requires
        forall|k: Seq<char>|
            #[trigger] known_keys().contains(k) ==> m.contains_key(k) == known_map(c).contains_key(k) && (
            known_map(c).contains_key(k) ==> m[k] == known_map(c)[k]),
    ensures
        c.gamemode@ == prop_string(m, "gamemode"@, "survival"@),
        c.difficulty@ == prop_string(m, "difficulty"@, "easy"@),
        c.hardcore == prop_bool(m, "hardcore"@, false),
        c.force_gamemode == prop_bool(m, "force-gamemode"@, false),
        c.max_players as int == prop_int(m, "max-players"@, 0, 4294967295, false, 20),
        c.view_distance as int == prop_int(m, "view-distance"@, 0, 4294967295, false, 10),
        c.simulation_distance as int == prop_int(m, "simulation-distance"@, 0, 4294967295, false, 10),
        c.spawn_protection as int == prop_int(m, "spawn-protection"@, 0, 4294967295, false, 16),
        c.max_world_size as int == prop_int(m, "max-world-size"@, -2147483648, 2147483647, true, 29999984),
        c.allow_flight == prop_bool(m, "allow-flight"@, false),
{
    reveal(known_map);
    lemma_known_keys_ascending();
    let s = sorted_known_keys();
    assert(s[52] == "server-port"@);
    assert(s[51] == "server-ip"@);
    assert(s[37] == "online-mode"@);
    assert(s[41] == "prevent-proxy-connections"@);
    assert(s[36] == "network-compression-threshold"@);
    assert(s[62] == "use-native-transport"@);
    assert(s[43] == "rate-limit"@);
    assert(s[17] == "gamemode"@);
    assert(s[6] == "difficulty"@);
    assert(s[19] == "hardcore"@);
    assert(s[15] == "force-gamemode"@);
    assert(s[32] == "max-players"@);
    assert(s[63] == "view-distance"@);
    assert(s[53] == "simulation-distance"@);
    assert(s[57] == "spawn-protection"@);
    assert(s[34] == "max-world-size"@);
    assert(s[1] == "allow-flight"@);
    assert(s[23] == "level-name"@);
    assert(s[24] == "level-seed"@);
    assert(s[18] == "generate-structures"@);
    assert(s[31] == "max-chained-neighbor-updates"@);
    assert(s[56] == "spawn-npcs"@);
    assert(s[54] == "spawn-animals"@);
    assert(s[55] == "spawn-monsters"@);
    assert(s[2] == "allow-nether"@);
    assert(s[35] == "motd"@);
    assert(s[11] == "enable-status"@);
    assert(s[20] == "hide-online-players"@);
    assert(s[14] == "entity-broadcast-range-percentage"@);
    assert(s[64] == "white-list"@);
    assert(s[13] == "enforce-whitelist"@);
    assert(s[38] == "op-permission-level"@);
    assert(s[16] == "function-permission-level"@);
    assert(s[12] == "enforce-secure-profile"@);
    assert(s[25] == "log-ips"@);
    assert(s[33] == "max-tick-time"@);
    assert(s[40] == "player-idle-timeout"@);
    assert(s[3] == "broadcast-console-to-ops"@);
    assert(s[4] == "broadcast-rcon-to-ops"@);
    assert(s[10] == "enable-rcon"@);
    assert(s[45] == "rcon.port"@);
    assert(s[44] == "rcon.password"@);
    assert(s[9] == "enable-query"@);
    assert(s[42] == "query.port"@);
    assert(s[48] == "resource-pack"@);
    assert(s[50] == "resource-pack-sha1"@);
    assert(s[49] == "resource-pack-prompt"@);
    assert(s[47] == "require-resource-pack"@);
    assert(s[26] == "management-server-enabled"@);
    assert(s[27] == "management-server-host"@);
    assert(s[28] == "management-server-port"@);
    assert(s[29] == "management-server-secret"@);
    assert(s[30] == "management-server-tls-enabled"@);
    assert(s[7] == "enable-code-of-conduct"@);
    assert(s[5] == "bug-report-link"@);
    assert(s[59] == "sync-chunk-writes"@);
    assert(s[46] == "region-file-compression"@);
    assert(s[8] == "enable-jmx-monitoring"@);
    assert(s[60] == "text-filtering-config"@);
    assert(s[61] == "text-filtering-version"@);
    assert(s[0] == "accepts-transfers"@);
    assert(s[39] == "pause-when-empty-seconds"@);
    assert(s[22] == "initial-enabled-packs"@);
    assert(s[21] == "initial-disabled-packs"@);
    assert(s[58] == "status-heartbeat-interval"@);
    assert(known_keys().contains("gamemode"@));
    assert(known_map(c).contains_key("gamemode"@) && known_map(c)["gamemode"@] == c.gamemode@);
    assert(known_keys().contains("difficulty"@));
    assert(known_map(c).contains_key("difficulty"@) && known_map(c)["difficulty"@] == c.difficulty@);
    assert(known_keys().contains("hardcore"@));
    assert(known_map(c).contains_key("hardcore"@) && known_map(c)["hardcore"@] == bool_text(c.hardcore));
    lemma_bool_text_clean(c.hardcore);
    assert(known_keys().contains("force-gamemode"@));
    assert(known_map(c).contains_key("force-gamemode"@) && known_map(c)["force-gamemode"@] == bool_text(c.force_gamemode));
    lemma_bool_text_clean(c.force_gamemode);
    assert(known_keys().contains("max-players"@));
    assert(known_map(c).contains_key("max-players"@) && known_map(c)["max-players"@] == int_digits(c.max_players as int));
    lemma_int_digits_parse(c.max_players as int, 0, 4294967295, false);
    assert(known_keys().contains("view-distance"@));
    assert(known_map(c).contains_key("view-distance"@) && known_map(c)["view-distance"@] == int_digits(c.view_distance as int));
    lemma_int_digits_parse(c.view_distance as int, 0, 4294967295, false);
    assert(known_keys().contains("simulation-distance"@));
    assert(known_map(c).contains_key("simulation-distance"@) && known_map(c)["simulation-distance"@] == int_digits(c.simulation_distance as int));
    lemma_int_digits_parse(c.simulation_distance as int, 0, 4294967295, false);
    assert(known_keys().contains("spawn-protection"@));
    assert(known_map(c).contains_key("spawn-protection"@) && known_map(c)["spawn-protection"@] == int_digits(c.spawn_protection as int));
    lemma_int_digits_parse(c.spawn_protection as int, 0, 4294967295, false);
    assert(known_keys().contains("max-world-size"@));
    assert(known_map(c).contains_key("max-world-size"@) && known_map(c)["max-world-size"@] == int_digits(c.max_world_size as int));
    lemma_int_digits_parse(c.max_world_size as int, -2147483648, 2147483647, true);
    assert(known_keys().contains("allow-flight"@));
    assert(known_map(c).contains_key("allow-flight"@) && known_map(c)["allow-flight"@] == bool_text(c.allow_flight));
    lemma_bool_text_clean(c.allow_flight);
}

/// A map that agrees with [`known_map`] on the known keys gives back the
/// world generation settings.
proof fn lemma_world_read_back(c: ServerConfig, m: Map<Seq<char>, Seq<char>>)
    requires
        forall|k: Seq<char>|
            #[trigger] known_keys().contains(k) ==> m.contains_key(k) == known_map(c).contains_key(k) && (
            known_map(c).contains_key(k) ==> m[k] == known_map(c)[k]),
    ensures
        c.level_name@ == prop_string(m, "level-name"@, "world"@),
        c.level_seed@ == prop_string(m, "level-seed"@, ""@),
        c.generate_structures == prop_bool(m, "generate-structures"@, true),
        c.max_chained_neighbor_updates as int == prop_int(m, "max-chained-neighbor-updates"@, -2147483648, 2147483647, true, 1000000),
        c.spawn_npcs == prop_bool(m, "spawn-npcs"@, true),
        c.spawn_animals == prop_bool(m, "spawn-animals"@, true),
        c.spawn_monsters == prop_bool(m, "spawn-monsters"@, true),
        c.allow_nether == prop_bool(m, "allow-nether"@, true),
{
    reveal(known_map);
    lemma_known_keys_ascending();
    let s = sorted_known_keys();
    assert(s[52] == "server-port"@);
    assert(s[51] == "server-ip"@);
    assert(s[37] == "online-mode"@);
    assert(s[41] == "prevent-proxy-connections"@);
    assert(s[36] == "network-compression-threshold"@);
    assert(s[62] == "use-native-transport"@);
    assert(s[43] == "rate-limit"@);
    assert(s[17] == "gamemode"@);
    assert(s[6] == "difficulty"@);
    assert(s[19] == "hardcore"@);
    assert(s[15] == "force-gamemode"@);
    assert(s[32] == "max-players"@);
    assert(s[63] == "view-distance"@);
    assert(s[53] == "simulation-distance"@);
    assert(s[57] == "spawn-protection"@);
    assert(s[34] == "max-world-size"@);
    assert(s[1] == "allow-flight"@);
    assert(s[23] == "level-name"@);
    assert(s[24] == "level-seed"@);
    assert(s[18] == "generate-structures"@);
    assert(s[31] == "max-chained-neighbor-updates"@);
    assert(s[56] == "spawn-npcs"@);
    assert(s[54] == "spawn-animals"@);
    assert(s[55] == "spawn-monsters"@);
    assert(s[2] == "allow-nether"@);
    assert(s[35] == "motd"@);
    assert(s[11] == "enable-status"@);
    assert(s[20] == "hide-online-players"@);
    assert(s[14] == "entity-broadcast-range-percentage"@);
    assert(s[64] == "white-list"@);
    assert(s[13] == "enforce-whitelist"@);
    assert(s[38] == "op-permission-level"@);
    assert(s[16] == "function-permission-level"@);
    assert(s[12] == "enforce-secure-profile"@);
    assert(s[25] == "log-ips"@);
    assert(s[33] == "max-tick-time"@);
    assert(s[40] == "player-idle-timeout"@);
    assert(s[3] == "broadcast-console-to-ops"@);
    assert(s[4] == "broadcast-rcon-to-ops"@);
    assert(s[10] == "enable-rcon"@);
    assert(s[45] == "rcon.port"@);
    assert(s[44] == "rcon.password"@);
    assert(s[9] == "enable-query"@);
    assert(s[42] == "query.port"@);
    assert(s[48] == "resource-pack"@);
    assert(s[50] == "resource-pack-sha1"@);
    assert(s[49] == "resource-pack-prompt"@);
    assert(s[47] == "require-resource-pack"@);
    assert(s[26] == "management-server-enabled"@);
    assert(s[27] == "management-server-host"@);
    assert(s[28] == "management-server-port"@);
    assert(s[29] == "management-server-secret"@);
    assert(s[30] == "management-server-tls-enabled"@);
    assert(s[7] == "enable-code-of-conduct"@);
    assert(s[5] == "bug-report-link"@);
    assert(s[59] == "sync-chunk-writes"@);
    assert(s[46] == "region-file-compression"@);
    assert(s[8] == "enable-jmx-monitoring"@);
    assert(s[60] == "text-filtering-config"@);
    assert(s[61] == "text-filtering-version"@);
    assert(s[0] == "accepts-transfers"@);
    assert(s[39] == "pause-when-empty-seconds"@);
    assert(s[22] == "initial-enabled-packs"@);
    assert(s[21] == "initial-disabled-packs"@);
    assert(s[58] == "status-heartbeat-interval"@);
    assert(known_keys().contains("level-name"@));
    assert(known_map(c).contains_key("level-name"@) && known_map(c)["level-name"@] == c.level_name@);
    assert(known_keys().contains("level-seed"@));
    assert(known_map(c).contains_key("level-seed"@) && known_map(c)["level-seed"@] == c.level_seed@);
    assert(known_keys().contains("generate-structures"@));
    assert(known_map(c).contains_key("generate-structures"@) && known_map(c)["generate-structures"@] == bool_text(c.generate_structures));
    lemma_bool_text_clean(c.generate_structures);
    assert(known_keys().contains("max-chained-neighbor-updates"@));
    assert(known_map(c).contains_key("max-chained-neighbor-updates"@) && known_map(c)["max-chained-neighbor-updates"@] == int_digits(c.max_chained_neighbor_updates as int));
    lemma_int_digits_parse(c.max_chained_neighbor_updates as int, -2147483648, 2147483647, true);
    assert(known_keys().contains("spawn-npcs"@));
    assert(known_map(c).contains_key("spawn-npcs"@) && known_map(c)["spawn-npcs"@] == bool_text(c.spawn_npcs));
    lemma_bool_text_clean(c.spawn_npcs);
    assert(known_keys().contains("spawn-animals"@));
    assert(known_map(c).contains_key("spawn-animals"@) && known_map(c)["spawn-animals"@] == bool_text(c.spawn_animals));
    lemma_bool_text_clean(c.spawn_animals);
    assert(known_keys().contains("spawn-monsters"@));
    assert(known_map(c).contains_key("spawn-monsters"@) && known_map(c)["spawn-monsters"@] == bool_text(c.spawn_monsters));
    lemma_bool_text_clean(c.spawn_monsters);
    assert(known_keys().contains("allow-nether"@));
    assert(known_map(c).contains_key("allow-nether"@) && known_map(c)["allow-nether"@] == bool_text(c.allow_nether));
    lemma_bool_text_clean(c.allow_nether);
}

/// A map that agrees with [`known_map`] on the known keys gives back the
/// server-list display settings.
proof fn lemma_display_read_back(c: ServerConfig, m: Map<Seq<char>, Seq<char>>)
    requires
        forall|k: Seq<char>|
            #[trigger] known_keys().contains(k) ==> m.contains_key(k) == known_map(c).contains_key(k) && (
            known_map(c).contains_key(k) ==> m[k] == known_map(c)[k]),
    ensures
        c.motd@ == prop_string(m, "motd"@, "A Minecraft Server"@),
        c.enable_status == prop_bool(m, "enable-status"@, true),
        c.hide_online_players == prop_bool(m, "hide-online-players"@, false),
        c.entity_broadcast_range_percentage as int == prop_int(m, "entity-broadcast-range-percentage"@, -2147483648, 2147483647, true, 100),
{
    reveal(known_map);
    lemma_known_keys_ascending();
    let s = sorted_known_keys();
    assert(s[52] == "server-port"@);
    assert(s[51] == "server-ip"@);
    assert(s[37] == "online-mode"@);
    assert(s[41] == "prevent-proxy-connections"@);
    assert(s[36] == "network-compression-threshold"@);
    assert(s[62] == "use-native-transport"@);
    assert(s[43] == "rate-limit"@);
    assert(s[17] == "gamemode"@);
    assert(s[6] == "difficulty"@);
    assert(s[19] == "hardcore"@);
    assert(s[15] == "force-gamemode"@);
    assert(s[32] == "max-players"@);
    assert(s[63] == "view-distance"@);
    assert(s[53] == "simulation-distance"@);
    assert(s[57] == "spawn-protection"@);
    assert(s[34] == "max-world-size"@);
    assert(s[1] == "allow-flight"@);
    assert(s[23] == "level-name"@);
    assert(s[24] == "level-seed"@);
    assert(s[18] == "generate-structures"@);
    assert(s[31] == "max-chained-neighbor-updates"@);
    assert(s[56] == "spawn-npcs"@);
    assert(s[54] == "spawn-animals"@);
    assert(s[55] == "spawn-monsters"@);
    assert(s[2] == "allow-nether"@);
    assert(s[35] == "motd"@);
    assert(s[11] == "enable-status"@);
    assert(s[20] == "hide-online-players"@);
    assert(s[14] == "entity-broadcast-range-percentage"@);
    assert(s[64] == "white-list"@);
    assert(s[13] == "enforce-whitelist"@);
    assert(s[38] == "op-permission-level"@);
    assert(s[16] == "function-permission-level"@);
    assert(s[12] == "enforce-secure-profile"@);
    assert(s[25] == "log-ips"@);
    assert(s[33] == "max-tick-time"@);
    assert(s[40] == "player-idle-timeout"@);
    assert(s[3] == "broadcast-console-to-ops"@);
    assert(s[4] == "broadcast-rcon-to-ops"@);
    assert(s[10] == "enable-rcon"@);
    assert(s[45] == "rcon.port"@);
    assert(s[44] == "rcon.password"@);
    assert(s[9] == "enable-query"@);
    assert(s[42] == "query.port"@);
    assert(s[48] == "resource-pack"@);
    assert(s[50] == "resource-pack-sha1"@);
    assert(s[49] == "resource-pack-prompt"@);
    assert(s[47] == "require-resource-pack"@);
    assert(s[26] == "management-server-enabled"@);
    assert(s[27] == "management-server-host"@);
    assert(s[28] == "management-server-port"@);
    assert(s[29] == "management-server-secret"@);
    assert(s[30] == "management-server-tls-enabled"@);
    assert(s[7] == "enable-code-of-conduct"@);
    assert(s[5] == "bug-report-link"@);
    assert(s[59] == "sync-chunk-writes"@);
    assert(s[46] == "region-file-compression"@);
    assert(s[8] == "enable-jmx-monitoring"@);
    assert(s[60] == "text-filtering-config"@);
    assert(s[61] == "text-filtering-version"@);
    assert(s[0] == "accepts-transfers"@);
    assert(s[39] == "pause-when-empty-seconds"@);
    assert(s[22] == "initial-enabled-packs"@);
    assert(s[21] == "initial-disabled-packs"@);
    assert(s[58] == "status-heartbeat-interval"@);
    assert(known_keys().contains("motd"@));
    assert(known_map(c).contains_key("motd"@) && known_map(c)["motd"@] == c.motd@);
    assert(known_keys().contains("enable-status"@));
    assert(known_map(c).contains_key("enable-status"@) && known_map(c)["enable-status"@] == bool_text(c.enable_status));
    lemma_bool_text_clean(c.enable_status);
    assert(known_keys().contains("hide-online-players"@));
    assert(known_map(c).contains_key("hide-online-players"@) && known_map(c)["hide-online-players"@] == bool_text(c.hide_online_players));
    lemma_bool_text_clean(c.hide_online_players);
    assert(known_keys().contains("entity-broadcast-range-percentage"@));
    assert(known_map(c).contains_key("entity-broadcast-range-percentage"@) && known_map(c)["entity-broadcast-range-percentage"@] == int_digits(c.entity_broadcast_range_percentage as int));
    lemma_int_digits_parse(c.entity_broadcast_range_percentage as int, -2147483648, 2147483647, true);
}

/// A map that agrees with [`known_map`] on the known keys gives back the
/// administration and security settings.
proof fn lemma_admin_read_back(c: ServerConfig, m: Map<Seq<char>, Seq<char>>)
    requires
        forall|k: Seq<char>|
            #[trigger] known_keys().contains(k) ==> m.contains_key(k) == known_map(c).contains_key(k) && (
            known_map(c).contains_key(k) ==> m[k] == known_map(c)[k]),
    ensures
        c.white_list == prop_bool(m, "white-list"@, false),
        c.enforce_whitelist == prop_bool(m, "enforce-whitelist"@, false),
        c.op_permission_level as int == prop_int(m, "op-permission-level"@, -2147483648, 2147483647, true, 4),
        c.function_permission_level as int == prop_int(m, "function-permission-level"@, -2147483648, 2147483647, true, 2),
        c.enforce_secure_profile == prop_bool(m, "enforce-secure-profile"@, true),
        c.log_ips == prop_bool(m, "log-ips"@, true),
        c.max_tick_time as int == prop_int(m, "max-tick-time"@, -9223372036854775808, 9223372036854775807, true, 60000),
        c.player_idle_timeout as int == prop_int(m, "player-idle-timeout"@, -2147483648, 2147483647, true, 0),
        c.broadcast_console_to_ops == prop_bool(m, "broadcast-console-to-ops"@, true),
        c.broadcast_rcon_to_ops == prop_bool(m, "broadcast-rcon-to-ops"@, true),
{
    reveal(known_map);
    lemma_known_keys_ascending();
    let s = sorted_known_keys();
    assert(s[52] == "server-port"@);
    assert(s[51] == "server-ip"@);
    assert(s[37] == "online-mode"@);
    assert(s[41] == "prevent-proxy-connections"@);
    assert(s[36] == "network-compression-threshold"@);
    assert(s[62] == "use-native-transport"@);
    assert(s[43] == "rate-limit"@);
    assert(s[17] == "gamemode"@);
    assert(s[6] == "difficulty"@);
    assert(s[19] == "hardcore"@);
    assert(s[15] == "force-gamemode"@);
    assert(s[32] == "max-players"@);
    assert(s[63] == "view-distance"@);
    assert(s[53] == "simulation-distance"@);
    assert(s[57] == "spawn-protection"@);
    assert(s[34] == "max-world-size"@);
    assert(s[1] == "allow-flight"@);
    assert(s[23] == "level-name"@);
    assert(s[24] == "level-seed"@);
    assert(s[18] == "generate-structures"@);
    assert(s[31] == "max-chained-neighbor-updates"@);
    assert(s[56] == "spawn-npcs"@);
    assert(s[54] == "spawn-animals"@);
    assert(s[55] == "spawn-monsters"@);
    assert(s[2] == "allow-nether"@);
    assert(s[35] == "motd"@);
    assert(s[11] == "enable-status"@);
    assert(s[20] == "hide-online-players"@);
    assert(s[14] == "entity-broadcast-range-percentage"@);
    assert(s[64] == "white-list"@);
    assert(s[13] == "enforce-whitelist"@);
    assert(s[38] == "op-permission-level"@);
    assert(s[16] == "function-permission-level"@);
    assert(s[12] == "enforce-secure-profile"@);
    assert(s[25] == "log-ips"@);
    assert(s[33] == "max-tick-time"@);
    assert(s[40] == "player-idle-timeout"@);
    assert(s[3] == "broadcast-console-to-ops"@);
    assert(s[4] == "broadcast-rcon-to-ops"@);
    assert(s[10] == "enable-rcon"@);
    assert(s[45] == "rcon.port"@);
    assert(s[44] == "rcon.password"@);
    assert(s[9] == "enable-query"@);
    assert(s[42] == "query.port"@);
    assert(s[48] == "resource-pack"@);
    assert(s[50] == "resource-pack-sha1"@);
    assert(s[49] == "resource-pack-prompt"@);
    assert(s[47] == "require-resource-pack"@);
    assert(s[26] == "management-server-enabled"@);
    assert(s[27] == "management-server-host"@);
    assert(s[28] == "management-server-port"@);
    assert(s[29] == "management-server-secret"@);
    assert(s[30] == "management-server-tls-enabled"@);
    assert(s[7] == "enable-code-of-conduct"@);
    assert(s[5] == "bug-report-link"@);
    assert(s[59] == "sync-chunk-writes"@);
    assert(s[46] == "region-file-compression"@);
    assert(s[8] == "enable-jmx-monitoring"@);
    assert(s[60] == "text-filtering-config"@);
    assert(s[61] == "text-filtering-version"@);
    assert(s[0] == "accepts-transfers"@);
    assert(s[39] == "pause-when-empty-seconds"@);
    assert(s[22] == "initial-enabled-packs"@);
    assert(s[21] == "initial-disabled-packs"@);
    assert(s[58] == "status-heartbeat-interval"@);
    assert(known_keys().contains("white-list"@));
    assert(known_map(c).contains_key("white-list"@) && known_map(c)["white-list"@] == bool_text(c.white_list));
    lemma_bool_text_clean(c.white_list);
    assert(known_keys().contains("enforce-whitelist"@));
    assert(known_map(c).contains_key("enforce-whitelist"@) && known_map(c)["enforce-whitelist"@] == bool_text(c.enforce_whitelist));
    lemma_bool_text_clean(c.enforce_whitelist);
    assert(known_keys().contains("op-permission-level"@));
    assert(known_map(c).contains_key("op-permission-level"@) && known_map(c)["op-permission-level"@] == int_digits(c.op_permission_level as int));
    lemma_int_digits_parse(c.op_permission_level as int, -2147483648, 2147483647, true);
    assert(known_keys().contains("function-permission-level"@));
    assert(known_map(c).contains_key("function-permission-level"@) && known_map(c)["function-permission-level"@] == int_digits(c.function_permission_level as int));
    lemma_int_digits_parse(c.function_permission_level as int, -2147483648, 2147483647, true);
    assert(known_keys().contains("enforce-secure-profile"@));
    assert(known_map(c).contains_key("enforce-secure-profile"@) && known_map(c)["enforce-secure-profile"@] == bool_text(c.enforce_secure_profile));
    lemma_bool_text_clean(c.enforce_secure_profile);
    assert(known_keys().contains("log-ips"@));
    assert(known_map(c).contains_key("log-ips"@) && known_map(c)["log-ips"@] == bool_text(c.log_ips));
    lemma_bool_text_clean(c.log_ips);
    assert(known_keys().contains("max-tick-time"@));
    assert(known_map(c).contains_key("max-tick-time"@) && known_map(c)["max-tick-time"@] == int_digits(c.max_tick_time as int));
    lemma_int_digits_parse(c.max_tick_time as int, -9223372036854775808, 9223372036854775807, true);
    assert(known_keys().contains("player-idle-timeout"@));
    assert(known_map(c).contains_key("player-idle-timeout"@) && known_map(c)["player-idle-timeout"@] == int_digits(c.player_idle_timeout as int));
    lemma_int_digits_parse(c.player_idle_timeout as int, -2147483648, 2147483647, true);
    assert(known_keys().contains("broadcast-console-to-ops"@));
    assert(known_map(c).contains_key("broadcast-console-to-ops"@) && known_map(c)["broadcast-console-to-ops"@] == bool_text(c.broadcast_console_to_ops));
    lemma_bool_text_clean(c.broadcast_console_to_ops);
    assert(known_keys().contains("broadcast-rcon-to-ops"@));
    assert(known_map(c).contains_key("broadcast-rcon-to-ops"@) && known_map(c)["broadcast-rcon-to-ops"@] == bool_text(c.broadcast_rcon_to_ops));
    lemma_bool_text_clean(c.broadcast_rcon_to_ops);
}

/// A map that agrees with [`known_map`] on the known keys gives back the
/// remote console settings.
proof fn lemma_rcon_read_back(c: ServerConfig, m: Map<Seq<char>, Seq<char>>)
    requires
        forall|k: Seq<char>|
            #[trigger] known_keys().contains(k) ==> m.contains_key(k) == known_map(c).contains_key(k) && (
            known_map(c).contains_key(k) ==> m[k] == known_map(c)[k]),
    ensures
        c.enable_rcon == prop_bool(m, "enable-rcon"@, false),
        c.rcon_port as int == prop_int(m, "rcon.port"@, 0, 65535, false, 25575),
        c.rcon_password@ == prop_string(m, "rcon.password"@, ""@),
{
    reveal(known_map);
    lemma_known_keys_ascending();
    let s = sorted_known_keys();
    assert(s[52] == "server-port"@);
    assert(s[51] == "server-ip"@);
    assert(s[37] == "online-mode"@);
    assert(s[41] == "prevent-proxy-connections"@);
    assert(s[36] == "network-compression-threshold"@);
    assert(s[62] == "use-native-transport"@);
    assert(s[43] == "rate-limit"@);
    assert(s[17] == "gamemode"@);
    assert(s[6] == "difficulty"@);
    assert(s[19] == "hardcore"@);
    assert(s[15] == "force-gamemode"@);
    assert(s[32] == "max-players"@);
    assert(s[63] == "view-distance"@);
    assert(s[53] == "simulation-distance"@);
    assert(s[57] == "spawn-protection"@);
    assert(s[34] == "max-world-size"@);
    assert(s[1] == "allow-flight"@);
    assert(s[23] == "level-name"@);
    assert(s[24] == "level-seed"@);
    assert(s[18] == "generate-structures"@);
    assert(s[31] == "max-chained-neighbor-updates"@);
    assert(s[56] == "spawn-npcs"@);
    assert(s[54] == "spawn-animals"@);
    assert(s[55] == "spawn-monsters"@);
    assert(s[2] == "allow-nether"@);
    assert(s[35] == "motd"@);
    assert(s[11] == "enable-status"@);
    assert(s[20] == "hide-online-players"@);
    assert(s[14] == "entity-broadcast-range-percentage"@);
    assert(s[64] == "white-list"@);
    assert(s[13] == "enforce-whitelist"@);
    assert(s[38] == "op-permission-level"@);
    assert(s[16] == "function-permission-level"@);
    assert(s[12] == "enforce-secure-profile"@);
    assert(s[25] == "log-ips"@);
    assert(s[33] == "max-tick-time"@);
    assert(s[40] == "player-idle-timeout"@);
    assert(s[3] == "broadcast-console-to-ops"@);
    assert(s[4] == "broadcast-rcon-to-ops"@);
    assert(s[10] == "enable-rcon"@);
    assert(s[45] == "rcon.port"@);
    assert(s[44] == "rcon.password"@);
    assert(s[9] == "enable-query"@);
    assert(s[42] == "query.port"@);
    assert(s[48] == "resource-pack"@);
    assert(s[50] == "resource-pack-sha1"@);
    assert(s[49] == "resource-pack-prompt"@);
    assert(s[47] == "require-resource-pack"@);
    assert(s[26] == "management-server-enabled"@);
    assert(s[27] == "management-server-host"@);
    assert(s[28] == "management-server-port"@);
    assert(s[29] == "management-server-secret"@);
    assert(s[30] == "management-server-tls-enabled"@);
    assert(s[7] == "enable-code-of-conduct"@);
    assert(s[5] == "bug-report-link"@);
    assert(s[59] == "sync-chunk-writes"@);
    assert(s[46] == "region-file-compression"@);
    assert(s[8] == "enable-jmx-monitoring"@);
    assert(s[60] == "text-filtering-config"@);
    assert(s[61] == "text-filtering-version"@);
    assert(s[0] == "accepts-transfers"@);
    assert(s[39] == "pause-when-empty-seconds"@);
    assert(s[22] == "initial-enabled-packs"@);
    assert(s[21] == "initial-disabled-packs"@);
    assert(s[58] == "status-heartbeat-interval"@);
    assert(known_keys().contains("enable-rcon"@));
    assert(known_map(c).contains_key("enable-rcon"@) && known_map(c)["enable-rcon"@] == bool_text(c.enable_rcon));
    lemma_bool_text_clean(c.enable_rcon);
    assert(known_keys().contains("rcon.port"@));
    assert(known_map(c).contains_key("rcon.port"@) && known_map(c)["rcon.port"@] == int_digits(c.rcon_port as int));
    lemma_int_digits_parse(c.rcon_port as int, 0, 65535, false);
    assert(known_keys().contains("rcon.password"@));
    assert(known_map(c).contains_key("rcon.password"@) && known_map(c)["rcon.password"@] == c.rcon_password@);
}

/// A map that agrees with [`known_map`] on the known keys gives back the
/// query protocol settings.
proof fn lemma_query_read_back(c: ServerConfig, m: Map<Seq<char>, Seq<char>>)
    requires
        forall|k: Seq<char>|
            #[trigger] known_keys().contains(k) ==> m.contains_key(k) == known_map(c).contains_key(k) && (
            known_map(c).contains_key(k) ==> m[k] == known_map(c)[k]),
    ensures
        c.enable_query == prop_bool(m, "enable-query"@, false),
        c.query_port as int == prop_int(m, "query.port"@, 0, 65535, false, 25565),
{
    reveal(known_map);
    lemma_known_keys_ascending();
    let s = sorted_known_keys();
    assert(s[52] == "server-port"@);
    assert(s[51] == "server-ip"@);
    assert(s[37] == "online-mode"@);
    assert(s[41] == "prevent-proxy-connections"@);
    assert(s[36] == "network-compression-threshold"@);
    assert(s[62] == "use-native-transport"@);
    assert(s[43] == "rate-limit"@);
    assert(s[17] == "gamemode"@);
    assert(s[6] == "difficulty"@);
    assert(s[19] == "hardcore"@);
    assert(s[15] == "force-gamemode"@);
    assert(s[32] == "max-players"@);
    assert(s[63] == "view-distance"@);
    assert(s[53] == "simulation-distance"@);
    assert(s[57] == "spawn-protection"@);
    assert(s[34] == "max-world-size"@);
    assert(s[1] == "allow-flight"@);
    assert(s[23] == "level-name"@);
    assert(s[24] == "level-seed"@);
    assert(s[18] == "generate-structures"@);
    assert(s[31] == "max-chained-neighbor-updates"@);
    assert(s[56] == "spawn-npcs"@);
    assert(s[54] == "spawn-animals"@);
    assert(s[55] == "spawn-monsters"@);
    assert(s[2] == "allow-nether"@);
    assert(s[35] == "motd"@);
    assert(s[11] == "enable-status"@);
    assert(s[20] == "hide-online-players"@);
    assert(s[14] == "entity-broadcast-range-percentage"@);
    assert(s[64] == "white-list"@);
    assert(s[13] == "enforce-whitelist"@);
    assert(s[38] == "op-permission-level"@);
    assert(s[16] == "function-permission-level"@);
    assert(s[12] == "enforce-secure-profile"@);
    assert(s[25] == "log-ips"@);
    assert(s[33] == "max-tick-time"@);
    assert(s[40] == "player-idle-timeout"@);
    assert(s[3] == "broadcast-console-to-ops"@);
    assert(s[4] == "broadcast-rcon-to-ops"@);
    assert(s[10] == "enable-rcon"@);
    assert(s[45] == "rcon.port"@);
    assert(s[44] == "rcon.password"@);
    assert(s[9] == "enable-query"@);
    assert(s[42] == "query.port"@);
    assert(s[48] == "resource-pack"@);
    assert(s[50] == "resource-pack-sha1"@);
    assert(s[49] == "resource-pack-prompt"@);
    assert(s[47] == "require-resource-pack"@);
    assert(s[26] == "management-server-enabled"@);
    assert(s[27] == "management-server-host"@);
    assert(s[28] == "management-server-port"@);
    assert(s[29] == "management-server-secret"@);
    assert(s[30] == "management-server-tls-enabled"@);
    assert(s[7] == "enable-code-of-conduct"@);
    assert(s[5] == "bug-report-link"@);
    assert(s[59] == "sync-chunk-writes"@);
    assert(s[46] == "region-file-compression"@);
    assert(s[8] == "enable-jmx-monitoring"@);
    assert(s[60] == "text-filtering-config"@);
    assert(s[61] == "text-filtering-version"@);
    assert(s[0] == "accepts-transfers"@);
    assert(s[39] == "pause-when-empty-seconds"@);
    assert(s[22] == "initial-enabled-packs"@);
    assert(s[21] == "initial-disabled-packs"@);
    assert(s[58] == "status-heartbeat-interval"@);
    assert(known_keys().contains("enable-query"@));
    assert(known_map(c).contains_key("enable-query"@) && known_map(c)["enable-query"@] == bool_text(c.enable_query));
    lemma_bool_text_clean(c.enable_query);
    assert(known_keys().contains("query.port"@));
    assert(known_map(c).contains_key("query.port"@) && known_map(c)["query.port"@] == int_digits(c.query_port as int));
    lemma_int_digits_parse(c.query_port as int, 0, 65535, false);
}

/// A map that agrees with [`known_map`] on the known keys gives back the
/// resource pack settings.
proof fn lemma_resource_pack_read_back(c: ServerConfig, m: Map<Seq<char>, Seq<char>>)
    requires
        forall|k: Seq<char>|
            #[trigger] known_keys().contains(k) ==> m.contains_key(k) == known_map(c).contains_key(k) && (
            known_map(c).contains_key(k) ==> m[k] == known_map(c)[k]),
    ensures
        c.resource_pack@ == prop_string(m, "resource-pack"@, ""@),
        c.resource_pack_sha1@ == prop_string(m, "resource-pack-sha1"@, ""@),
        c.resource_pack_prompt@ == prop_string(m, "resource-pack-prompt"@, ""@),
        c.require_resource_pack == prop_bool(m, "require-resource-pack"@, false),
{
    reveal(known_map);
    lemma_known_keys_ascending();
    let s = sorted_known_keys();
    assert(s[52] == "server-port"@);
    assert(s[51] == "server-ip"@);
    assert(s[37] == "online-mode"@);
    assert(s[41] == "prevent-proxy-connections"@);
    assert(s[36] == "network-compression-threshold"@);
    assert(s[62] == "use-native-transport"@);
    assert(s[43] == "rate-limit"@);
    assert(s[17] == "gamemode"@);
    assert(s[6] == "difficulty"@);
    assert(s[19] == "hardcore"@);
    assert(s[15] == "force-gamemode"@);
    assert(s[32] == "max-players"@);
    assert(s[63] == "view-distance"@);
    assert(s[53] == "simulation-distance"@);
    assert(s[57] == "spawn-protection"@);
    assert(s[34] == "max-world-size"@);
    assert(s[1] == "allow-flight"@);
    assert(s[23] == "level-name"@);
    assert(s[24] == "level-seed"@);
    assert(s[18] == "generate-structures"@);
    assert(s[31] == "max-chained-neighbor-updates"@);
    assert(s[56] == "spawn-npcs"@);
    assert(s[54] == "spawn-animals"@);
    assert(s[55] == "spawn-monsters"@);
    assert(s[2] == "allow-nether"@);
    assert(s[35] == "motd"@);
    assert(s[11] == "enable-status"@);
    assert(s[20] == "hide-online-players"@);
    assert(s[14] == "entity-broadcast-range-percentage"@);
    assert(s[64] == "white-list"@);
    assert(s[13] == "enforce-whitelist"@);
    assert(s[38] == "op-permission-level"@);
    assert(s[16] == "function-permission-level"@);
    assert(s[12] == "enforce-secure-profile"@);
    assert(s[25] == "log-ips"@);
    assert(s[33] == "max-tick-time"@);
    assert(s[40] == "player-idle-timeout"@);
    assert(s[3] == "broadcast-console-to-ops"@);
    assert(s[4] == "broadcast-rcon-to-ops"@);
    assert(s[10] == "enable-rcon"@);
    assert(s[45] == "rcon.port"@);
    assert(s[44] == "rcon.password"@);
    assert(s[9] == "enable-query"@);
    assert(s[42] == "query.port"@);
    assert(s[48] == "resource-pack"@);
    assert(s[50] == "resource-pack-sha1"@);
    assert(s[49] == "resource-pack-prompt"@);
    assert(s[47] == "require-resource-pack"@);
    assert(s[26] == "management-server-enabled"@);
    assert(s[27] == "management-server-host"@);
    assert(s[28] == "management-server-port"@);
    assert(s[29] == "management-server-secret"@);
    assert(s[30] == "management-server-tls-enabled"@);
    assert(s[7] == "enable-code-of-conduct"@);
    assert(s[5] == "bug-report-link"@);
    assert(s[59] == "sync-chunk-writes"@);
    assert(s[46] == "region-file-compression"@);
    assert(s[8] == "enable-jmx-monitoring"@);
    assert(s[60] == "text-filtering-config"@);
    assert(s[61] == "text-filtering-version"@);
    assert(s[0] == "accepts-transfers"@);
    assert(s[39] == "pause-when-empty-seconds"@);
    assert(s[22] == "initial-enabled-packs"@);
    assert(s[21] == "initial-disabled-packs"@);
    assert(s[58] == "status-heartbeat-interval"@);
    assert(known_keys().contains("resource-pack"@));
    assert(known_map(c).contains_key("resource-pack"@) && known_map(c)["resource-pack"@] == c.resource_pack@);
    assert(known_keys().contains("resource-pack-sha1"@));
    assert(known_map(c).contains_key("resource-pack-sha1"@) && known_map(c)["resource-pack-sha1"@] == c.resource_pack_sha1@);
    assert(known_keys().contains("resource-pack-prompt"@));
    assert(known_map(c).contains_key("resource-pack-prompt"@) && known_map(c)["resource-pack-prompt"@] == c.resource_pack_prompt@);
    assert(known_keys().contains("require-resource-pack"@));
    assert(known_map(c).contains_key("require-resource-pack"@) && known_map(c)["require-resource-pack"@] == bool_text(c.require_resource_pack));
    lemma_bool_text_clean(c.require_resource_pack);
}

/// A map that agrees with [`known_map`] on the known keys gives back the
/// management server settings.
proof fn lemma_management_read_back(c: ServerConfig, m: Map<Seq<char>, Seq<char>>)
    requires
        forall|k: Seq<char>|
            #[trigger] known_keys().contains(k) ==> m.contains_key(k) == known_map(c).contains_key(k) && (
            known_map(c).contains_key(k) ==> m[k] == known_map(c)[k]),
    ensures
        c.management_server_enabled == prop_bool(m, "management-server-enabled"@, false),
        c.management_server_host@ == prop_string(m, "management-server-host"@, "localhost"@),
        c.management_server_port as int == prop_int(m, "management-server-port"@, 0, 65535, false, 0),
        c.management_server_secret@ == prop_string(m, "management-server-secret"@, ""@),
        c.management_server_tls_enabled == prop_bool(m, "management-server-tls-enabled"@, true),
{
    reveal(known_map);
    lemma_known_keys_ascending();
    let s = sorted_known_keys();
    assert(s[52] == "server-port"@);
    assert(s[51] == "server-ip"@);
    assert(s[37] == "online-mode"@);
    assert(s[41] == "prevent-proxy-connections"@);
    assert(s[36] == "network-compression-threshold"@);
    assert(s[62] == "use-native-transport"@);
    assert(s[43] == "rate-limit"@);
    assert(s[17] == "gamemode"@);
    assert(s[6] == "difficulty"@);
    assert(s[19] == "hardcore"@);
    assert(s[15] == "force-gamemode"@);
    assert(s[32] == "max-players"@);
    assert(s[63] == "view-distance"@);
    assert(s[53] == "simulation-distance"@);
    assert(s[57] == "spawn-protection"@);
    assert(s[34] == "max-world-size"@);
    assert(s[1] == "allow-flight"@);
    assert(s[23] == "level-name"@);
    assert(s[24] == "level-seed"@);
    assert(s[18] == "generate-structures"@);
    assert(s[31] == "max-chained-neighbor-updates"@);
    assert(s[56] == "spawn-npcs"@);
    assert(s[54] == "spawn-animals"@);
    assert(s[55] == "spawn-monsters"@);
    assert(s[2] == "allow-nether"@);
    assert(s[35] == "motd"@);
    assert(s[11] == "enable-status"@);
    assert(s[20] == "hide-online-players"@);
    assert(s[14] == "entity-broadcast-range-percentage"@);
    assert(s[64] == "white-list"@);
    assert(s[13] == "enforce-whitelist"@);
    assert(s[38] == "op-permission-level"@);
    assert(s[16] == "function-permission-level"@);
    assert(s[12] == "enforce-secure-profile"@);
    assert(s[25] == "log-ips"@);
    assert(s[33] == "max-tick-time"@);
    assert(s[40] == "player-idle-timeout"@);
    assert(s[3] == "broadcast-console-to-ops"@);
    assert(s[4] == "broadcast-rcon-to-ops"@);
    assert(s[10] == "enable-rcon"@);
    assert(s[45] == "rcon.port"@);
    assert(s[44] == "rcon.password"@);
    assert(s[9] == "enable-query"@);
    assert(s[42] == "query.port"@);
    assert(s[48] == "resource-pack"@);
    assert(s[50] == "resource-pack-sha1"@);
    assert(s[49] == "resource-pack-prompt"@);
    assert(s[47] == "require-resource-pack"@);
    assert(s[26] == "management-server-enabled"@);
    assert(s[27] == "management-server-host"@);
    assert(s[28] == "management-server-port"@);
    assert(s[29] == "management-server-secret"@);
    assert(s[30] == "management-server-tls-enabled"@);
    assert(s[7] == "enable-code-of-conduct"@);
    assert(s[5] == "bug-report-link"@);
    assert(s[59] == "sync-chunk-writes"@);
    assert(s[46] == "region-file-compression"@);
    assert(s[8] == "enable-jmx-monitoring"@);
    assert(s[60] == "text-filtering-config"@);
    assert(s[61] == "text-filtering-version"@);
    assert(s[0] == "accepts-transfers"@);
    assert(s[39] == "pause-when-empty-seconds"@);
    assert(s[22] == "initial-enabled-packs"@);
    assert(s[21] == "initial-disabled-packs"@);
    assert(s[58] == "status-heartbeat-interval"@);
    assert(known_keys().contains("management-server-enabled"@));
    assert(known_map(c).contains_key("management-server-enabled"@) && known_map(c)["management-server-enabled"@] == bool_text(c.management_server_enabled));
    lemma_bool_text_clean(c.management_server_enabled);
    assert(known_keys().contains("management-server-host"@));
    assert(known_map(c).contains_key("management-server-host"@) && known_map(c)["management-server-host"@] == c.management_server_host@);
    assert(known_keys().contains("management-server-port"@));
    assert(known_map(c).contains_key("management-server-port"@) && known_map(c)["management-server-port"@] == int_digits(c.management_server_port as int));
    lemma_int_digits_parse(c.management_server_port as int, 0, 65535, false);
    assert(known_keys().contains("management-server-secret"@));
    assert(known_map(c).contains_key("management-server-secret"@) && known_map(c)["management-server-secret"@] == c.management_server_secret@);
    assert(known_keys().contains("management-server-tls-enabled"@));
    assert(known_map(c).contains_key("management-server-tls-enabled"@) && known_map(c)["management-server-tls-enabled"@] == bool_text(c.management_server_tls_enabled));
    lemma_bool_text_clean(c.management_server_tls_enabled);
}

/// A map that agrees with [`known_map`] on the known keys gives back the
/// code of conduct settings.
proof fn lemma_code_of_conduct_read_back(c: ServerConfig, m: Map<Seq<char>, Seq<char>>)
    requires
        forall|k: Seq<char>|
            #[trigger] known_keys().contains(k) ==> m.contains_key(k) == known_map(c).contains_key(k) && (
            known_map(c).contains_key(k) ==> m[k] == known_map(c)[k]),
    ensures
        c.enable_code_of_conduct == prop_bool(m, "enable-code-of-conduct"@, false),
        c.bug_report_link@ == prop_string(m, "bug-report-link"@, ""@),
{
    reveal(known_map);
    lemma_known_keys_ascending();
    let s = sorted_known_keys();
    assert(s[52] == "server-port"@);
    assert(s[51] == "server-ip"@);
    assert(s[37] == "online-mode"@);
    assert(s[41] == "prevent-proxy-connections"@);
    assert(s[36] == "network-compression-threshold"@);
    assert(s[62] == "use-native-transport"@);
    assert(s[43] == "rate-limit"@);
    assert(s[17] == "gamemode"@);
    assert(s[6] == "difficulty"@);
    assert(s[19] == "hardcore"@);
    assert(s[15] == "force-gamemode"@);
    assert(s[32] == "max-players"@);
    assert(s[63] == "view-distance"@);
    assert(s[53] == "simulation-distance"@);
    assert(s[57] == "spawn-protection"@);
    assert(s[34] == "max-world-size"@);
    assert(s[1] == "allow-flight"@);
    assert(s[23] == "level-name"@);
    assert(s[24] == "level-seed"@);
    assert(s[18] == "generate-structures"@);
    assert(s[31] == "max-chained-neighbor-updates"@);
    assert(s[56] == "spawn-npcs"@);
    assert(s[54] == "spawn-animals"@);
    assert(s[55] == "spawn-monsters"@);
    assert(s[2] == "allow-nether"@);
    assert(s[35] == "motd"@);
    assert(s[11] == "enable-status"@);
    assert(s[20] == "hide-online-players"@);
    assert(s[14] == "entity-broadcast-range-percentage"@);
    assert(s[64] == "white-list"@);
    assert(s[13] == "enforce-whitelist"@);
    assert(s[38] == "op-permission-level"@);
    assert(s[16] == "function-permission-level"@);
    assert(s[12] == "enforce-secure-profile"@);
    assert(s[25] == "log-ips"@);
    assert(s[33] == "max-tick-time"@);
    assert(s[40] == "player-idle-timeout"@);
    assert(s[3] == "broadcast-console-to-ops"@);
    assert(s[4] == "broadcast-rcon-to-ops"@);
    assert(s[10] == "enable-rcon"@);
    assert(s[45] == "rcon.port"@);
    assert(s[44] == "rcon.password"@);
    assert(s[9] == "enable-query"@);
    assert(s[42] == "query.port"@);
    assert(s[48] == "resource-pack"@);
    assert(s[50] == "resource-pack-sha1"@);
    assert(s[49] == "resource-pack-prompt"@);
    assert(s[47] == "require-resource-pack"@);
    assert(s[26] == "management-server-enabled"@);
    assert(s[27] == "management-server-host"@);
    assert(s[28] == "management-server-port"@);
    assert(s[29] == "management-server-secret"@);
    assert(s[30] == "management-server-tls-enabled"@);
    assert(s[7] == "enable-code-of-conduct"@);
    assert(s[5] == "bug-report-link"@);
    assert(s[59] == "sync-chunk-writes"@);
    assert(s[46] == "region-file-compression"@);
    assert(s[8] == "enable-jmx-monitoring"@);
    assert(s[60] == "text-filtering-config"@);
    assert(s[61] == "text-filtering-version"@);
    assert(s[0] == "accepts-transfers"@);
    assert(s[39] == "pause-when-empty-seconds"@);
    assert(s[22] == "initial-enabled-packs"@);
    assert(s[21] == "initial-disabled-packs"@);
    assert(s[58] == "status-heartbeat-interval"@);
    assert(known_keys().contains("enable-code-of-conduct"@));
    assert(known_map(c).contains_key("enable-code-of-conduct"@) && known_map(c)["enable-code-of-conduct"@] == bool_text(c.enable_code_of_conduct));
    lemma_bool_text_clean(c.enable_code_of_conduct);
    assert(known_keys().contains("bug-report-link"@));
    assert(known_map(c).contains_key("bug-report-link"@) && known_map(c)["bug-report-link"@] == c.bug_report_link@);
}

/// A map that agrees with [`known_map`] on the known keys gives back the
/// remaining settings.
proof fn lemma_misc_read_back(c: ServerConfig, m: Map<Seq<char>, Seq<char>>)
    requires
        forall|k: Seq<char>|
            #[trigger] known_keys().contains(k) ==> m.contains_key(k) == known_map(c).contains_key(k) && (
            known_map(c).contains_key(k) ==> m[k] == known_map(c)[k]),
    ensures
        c.sync_chunk_writes == prop_bool(m, "sync-chunk-writes"@, true),
        c.region_file_compression@ == prop_string(m, "region-file-compression"@, "deflate"@),
        c.enable_jmx_monitoring == prop_bool(m, "enable-jmx-monitoring"@, false),
        c.text_filtering_config@ == prop_string(m, "text-filtering-config"@, ""@),
        c.text_filtering_version as int == prop_int(m, "text-filtering-version"@, -2147483648, 2147483647, true, 0),
        c.accepts_transfers == prop_bool(m, "accepts-transfers"@, false),
        c.pause_when_empty_seconds as int == prop_int(m, "pause-when-empty-seconds"@, -2147483648, 2147483647, true, 60),
        c.initial_enabled_packs@ == prop_string(m, "initial-enabled-packs"@, "vanilla"@),
        c.initial_disabled_packs@ == prop_string(m, "initial-disabled-packs"@, ""@),
        c.status_heartbeat_interval as int == prop_int(m, "status-heartbeat-interval"@, -2147483648, 2147483647, true, 0),
{
    reveal(known_map);
    lemma_known_keys_ascending();
    let s = sorted_known_keys();
    assert(s[52] == "server-port"@);
    assert(s[51] == "server-ip"@);
    assert(s[37] == "online-mode"@);
    assert(s[41] == "prevent-proxy-connections"@);
    assert(s[36] == "network-compression-threshold"@);
    assert(s[62] == "use-native-transport"@);
    assert(s[43] == "rate-limit"@);
    assert(s[17] == "gamemode"@);
    assert(s[6] == "difficulty"@);
    assert(s[19] == "hardcore"@);
    assert(s[15] == "force-gamemode"@);
    assert(s[32] == "max-players"@);
    assert(s[63] == "view-distance"@);
    assert(s[53] == "simulation-distance"@);
    assert(s[57] == "spawn-protection"@);
    assert(s[34] == "max-world-size"@);
    assert(s[1] == "allow-flight"@);
    assert(s[23] == "level-name"@);
    assert(s[24] == "level-seed"@);
    assert(s[18] == "generate-structures"@);
    assert(s[31] == "max-chained-neighbor-updates"@);
    assert(s[56] == "spawn-npcs"@);
    assert(s[54] == "spawn-animals"@);
    assert(s[55] == "spawn-monsters"@);
    assert(s[2] == "allow-nether"@);
    assert(s[35] == "motd"@);
    assert(s[11] == "enable-status"@);
    assert(s[20] == "hide-online-players"@);
    assert(s[14] == "entity-broadcast-range-percentage"@);
    assert(s[64] == "white-list"@);
    assert(s[13] == "enforce-whitelist"@);
    assert(s[38] == "op-permission-level"@);
    assert(s[16] == "function-permission-level"@);
    assert(s[12] == "enforce-secure-profile"@);
    assert(s[25] == "log-ips"@);
    assert(s[33] == "max-tick-time"@);
    assert(s[40] == "player-idle-timeout"@);
    assert(s[3] == "broadcast-console-to-ops"@);
    assert(s[4] == "broadcast-rcon-to-ops"@);
    assert(s[10] == "enable-rcon"@);
    assert(s[45] == "rcon.port"@);
    assert(s[44] == "rcon.password"@);
    assert(s[9] == "enable-query"@);
    assert(s[42] == "query.port"@);
    assert(s[48] == "resource-pack"@);
    assert(s[50] == "resource-pack-sha1"@);
    assert(s[49] == "resource-pack-prompt"@);
    assert(s[47] == "require-resource-pack"@);
    assert(s[26] == "management-server-enabled"@);
    assert(s[27] == "management-server-host"@);
    assert(s[28] == "management-server-port"@);
    assert(s[29] == "management-server-secret"@);
    assert(s[30] == "management-server-tls-enabled"@);
    assert(s[7] == "enable-code-of-conduct"@);
    assert(s[5] == "bug-report-link"@);
    assert(s[59] == "sync-chunk-writes"@);
    assert(s[46] == "region-file-compression"@);
    assert(s[8] == "enable-jmx-monitoring"@);
    assert(s[60] == "text-filtering-config"@);
    assert(s[61] == "text-filtering-version"@);
    assert(s[0] == "accepts-transfers"@);
    assert(s[39] == "pause-when-empty-seconds"@);
    assert(s[22] == "initial-enabled-packs"@);
    assert(s[21] == "initial-disabled-packs"@);
    assert(s[58] == "status-heartbeat-interval"@);
    assert(known_keys().contains("sync-chunk-writes"@));
    assert(known_map(c).contains_key("sync-chunk-writes"@) && known_map(c)["sync-chunk-writes"@] == bool_text(c.sync_chunk_writes));
    lemma_bool_text_clean(c.sync_chunk_writes);
    assert(known_keys().contains("region-file-compression"@));
    assert(known_map(c).contains_key("region-file-compression"@) && known_map(c)["region-file-compression"@] == c.region_file_compression@);
    assert(known_keys().contains("enable-jmx-monitoring"@));
    assert(known_map(c).contains_key("enable-jmx-monitoring"@) && known_map(c)["enable-jmx-monitoring"@] == bool_text(c.enable_jmx_monitoring));
    lemma_bool_text_clean(c.enable_jmx_monitoring);
    assert(known_keys().contains("text-filtering-config"@));
    assert(known_map(c).contains_key("text-filtering-config"@) && known_map(c)["text-filtering-config"@] == c.text_filtering_config@);
    assert(known_keys().contains("text-filtering-version"@));
    assert(known_map(c).contains_key("text-filtering-version"@) && known_map(c)["text-filtering-version"@] == int_digits(c.text_filtering_version as int));
    lemma_int_digits_parse(c.text_filtering_version as int, -2147483648, 2147483647, true);
    assert(known_keys().contains("accepts-transfers"@));
    assert(known_map(c).contains_key("accepts-transfers"@) && known_map(c)["accepts-transfers"@] == bool_text(c.accepts_transfers));
    lemma_bool_text_clean(c.accepts_transfers);
    assert(known_keys().contains("pause-when-empty-seconds"@));
    assert(known_map(c).contains_key("pause-when-empty-seconds"@) && known_map(c)["pause-when-empty-seconds"@] == int_digits(c.pause_when_empty_seconds as int));
    lemma_int_digits_parse(c.pause_when_empty_seconds as int, -2147483648, 2147483647, true);
    assert(known_keys().contains("initial-enabled-packs"@));
    assert(known_map(c).contains_key("initial-enabled-packs"@) && known_map(c)["initial-enabled-packs"@] == c.initial_enabled_packs@);
    assert(known_keys().contains("initial-disabled-packs"@));
    assert(known_map(c).contains_key("initial-disabled-packs"@) && known_map(c)["initial-disabled-packs"@] == c.initial_disabled_packs@);
    assert(known_keys().contains("status-heartbeat-interval"@));
    assert(known_map(c).contains_key("status-heartbeat-interval"@) && known_map(c)["status-heartbeat-interval"@] == int_digits(c.status_heartbeat_interval as int));
    lemma_int_digits_parse(c.status_heartbeat_interval as int, -2147483648, 2147483647, true);
}

/// On the known keys, the parsed map agrees with [`known_map`].
proof fn lemma_known_agree(c: ServerConfig, up: Seq<(Seq<char>, Seq<char>)>)
    requires
        c.wf(),
        is_sorted_listing(up, c.unknown()),
    ensures
        forall|k: Seq<char>|
            #[trigger] known_keys().contains(k) ==> insert_all(known_map(c), up).contains_key(k)
                == known_map(c).contains_key(k) && (known_map(c).contains_key(k) ==> insert_all(
                known_map(c),
                up,
            )[k] == known_map(c)[k]),
{
    lemma_sorted_listing_keys(up, c.unknown());
    lemma_insert_all(known_map(c), up);
    assert forall|k: Seq<char>| #[trigger] known_keys().contains(k) implies insert_all(known_map(c), up).contains_key(
        k,
    ) == known_map(c).contains_key(k) && (known_map(c).contains_key(k) ==> insert_all(known_map(c), up)[k]
        == known_map(c)[k]) by {
        assert(!c.unknown().contains_key(k));
        assert(!pair_keys(up).contains(k));
    }
}

/// Without the known keys, the parsed map is the map of unknown keys.
proof fn lemma_unknown_agree(c: ServerConfig, up: Seq<(Seq<char>, Seq<char>)>)
    requires
        c.wf(),
        is_sorted_listing(up, c.unknown()),
    ensures
        c.unknown() == insert_all(known_map(c), up).remove_keys(known_keys()),
{
    let m = insert_all(known_map(c), up);
    lemma_sorted_listing_keys(up, c.unknown());
    lemma_insert_all(known_map(c), up);
    lemma_known_map_dom(c);
    assert forall|k: Seq<char>| #[trigger] m.remove_keys(known_keys()).contains_key(k) == c.unknown().contains_key(k) by {
        if !known_keys().contains(k) {
            assert(!known_map(c).contains_key(k));
            if !pair_keys(up).contains(k) {
                assert(!m.contains_key(k));
            }
        } else {
            assert(c.unknown().dom().disjoint(known_keys()));
        }
    }
    assert forall|k: Seq<char>| #[trigger] c.unknown().contains_key(k) implies m[k] == c.unknown()[k] by {
        assert(pair_keys(up).contains(k));
        let i = choose|i: int| 0 <= i < pair_keys(up).len() && pair_keys(up)[i] == k;
        assert(up[i].0 == k);
        assert(insert_all(known_map(c), up).contains_key(up[i].0));
        assert(m[up[i].0] == up[i].1);
    }
    assert(c.unknown() =~= m.remove_keys(known_keys()));
}

/// Saving a configuration and reading the text back gives the same
/// configuration: for a well-formed configuration whose strings, unknown
/// keys and header timestamp read back unchanged (see [`savable`]), the
/// properties text parses to a map from which every field and every
/// unknown key is read back exactly.
pub proof fn lemma_save_load_roundtrip(c: ServerConfig, timestamp: Seq<char>)
    requires
        c.wf(),
        savable(c, timestamp),
    ensures
        c.read_from(spec_parse_properties(ServerConfig::spec_properties_text(c, timestamp))),
{
    lemma_saved_text(c, timestamp);
    lemma_saved_parse(c, timestamp);
    let up = spec_sorted_entries(c.unknown());
    let m = insert_all(known_map(c), up);
    c.unknown_keys.lemma_view_finite();
    lemma_sorted_listing_exists(c.unknown());
    lemma_known_agree(c, up);
    lemma_unknown_agree(c, up);
    lemma_network_read_back(c, m);
    lemma_gameplay_read_back(c, m);
    lemma_world_read_back(c, m);
    lemma_display_read_back(c, m);
    lemma_admin_read_back(c, m);
    lemma_rcon_read_back(c, m);
    lemma_query_read_back(c, m);
    lemma_resource_pack_read_back(c, m);
    lemma_management_read_back(c, m);
    lemma_code_of_conduct_read_back(c, m);
    lemma_misc_read_back(c, m);
}

/// `a` and `b` hold the same settings and the same unknown keys.
pub open spec fn same_settings(a: ServerConfig, b: ServerConfig) -> bool {
    &&& a.server_port == b.server_port
    &&& a.server_ip@ == b.server_ip@
    &&& a.online_mode == b.online_mode
    &&& a.prevent_proxy_connections == b.prevent_proxy_connections
    &&& a.network_compression_threshold == b.network_compression_threshold
    &&& a.use_native_transport == b.use_native_transport
    &&& a.rate_limit == b.rate_limit
    &&& a.gamemode@ == b.gamemode@
    &&& a.difficulty@ == b.difficulty@
    &&& a.hardcore == b.hardcore
    &&& a.force_gamemode == b.force_gamemode
    &&& a.max_players == b.max_players
    &&& a.view_distance == b.view_distance
    &&& a.simulation_distance == b.simulation_distance
    &&& a.spawn_protection == b.spawn_protection
    &&& a.max_world_size == b.max_world_size
    &&& a.allow_flight == b.allow_flight
    &&& a.level_name@ == b.level_name@
    &&& a.level_seed@ == b.level_seed@
    &&& a.generate_structures == b.generate_structures
    &&& a.max_chained_neighbor_updates == b.max_chained_neighbor_updates
    &&& a.spawn_npcs == b.spawn_npcs
    &&& a.spawn_animals == b.spawn_animals
    &&& a.spawn_monsters == b.spawn_monsters
    &&& a.allow_nether == b.allow_nether
    &&& a.motd@ == b.motd@
    &&& a.enable_status == b.enable_status
    &&& a.hide_online_players == b.hide_online_players
    &&& a.entity_broadcast_range_percentage == b.entity_broadcast_range_percentage
    &&& a.white_list == b.white_list
    &&& a.enforce_whitelist == b.enforce_whitelist
    &&& a.op_permission_level == b.op_permission_level
    &&& a.function_permission_level == b.function_permission_level
    &&& a.enforce_secure_profile == b.enforce_secure_profile
    &&& a.log_ips == b.log_ips
    &&& a.max_tick_time == b.max_tick_time
    &&& a.player_idle_timeout == b.player_idle_timeout
    &&& a.broadcast_console_to_ops == b.broadcast_console_to_ops
    &&& a.broadcast_rcon_to_ops == b.broadcast_rcon_to_ops
    &&& a.enable_rcon == b.enable_rcon
    &&& a.rcon_port == b.rcon_port
    &&& a.rcon_password@ == b.rcon_password@
    &&& a.enable_query == b.enable_query
    &&& a.query_port == b.query_port
    &&& a.resource_pack@ == b.resource_pack@
    &&& a.resource_pack_sha1@ == b.resource_pack_sha1@
    &&& a.resource_pack_prompt@ == b.resource_pack_prompt@
    &&& a.require_resource_pack == b.require_resource_pack
    &&& a.management_server_enabled == b.management_server_enabled
    &&& a.management_server_host@ == b.management_server_host@
    &&& a.management_server_port == b.management_server_port
    &&& a.management_server_secret@ == b.management_server_secret@
    &&& a.management_server_tls_enabled == b.management_server_tls_enabled
    &&& a.enable_code_of_conduct == b.enable_code_of_conduct
    &&& a.bug_report_link@ == b.bug_report_link@
    &&& a.sync_chunk_writes == b.sync_chunk_writes
    &&& a.region_file_compression@ == b.region_file_compression@
    &&& a.enable_jmx_monitoring == b.enable_jmx_monitoring
    &&& a.text_filtering_config@ == b.text_filtering_config@
    &&& a.text_filtering_version == b.text_filtering_version
    &&& a.accepts_transfers == b.accepts_transfers
    &&& a.pause_when_empty_seconds == b.pause_when_empty_seconds
    &&& a.initial_enabled_packs@ == b.initial_enabled_packs@
    &&& a.initial_disabled_packs@ == b.initial_disabled_packs@
    &&& a.status_heartbeat_interval == b.status_heartbeat_interval
    &&& a.unknown() == b.unknown()
}

/// Two configurations read from the same map hold the same settings.
pub proof fn lemma_read_from_unique(a: ServerConfig, b: ServerConfig, m: Map<Seq<char>, Seq<char>>)
    requires
        a.read_from(m),
        b.read_from(m),
    ensures
        same_settings(a, b),
{
}

/// A configuration read back from the text another one was saved as holds
/// the same settings and unknown keys as the saved one (for a savable
/// configuration and timestamp).
pub proof fn lemma_saved_config_reloads(c: ServerConfig, d: ServerConfig, timestamp: Seq<char>)
    requires
        c.wf(),
        savable(c, timestamp),
        d.read_from(spec_parse_properties(ServerConfig::spec_properties_text(c, timestamp))),
    ensures
        same_settings(c, d),
{
    lemma_save_load_roundtrip(c, timestamp);
    lemma_read_from_unique(c, d, spec_parse_properties(ServerConfig::spec_properties_text(c, timestamp)));
}

/// The default configuration reads back unchanged with any timestamp free
/// of line feeds.
pub proof fn lemma_default_savable(c: ServerConfig, timestamp: Seq<char>)
    requires
        c.is_default(),
        no_newline(timestamp),
    ensures
        savable(c, timestamp),
{
    reveal_strlit("");
    reveal_strlit("survival");
    reveal_strlit("easy");
    reveal_strlit("world");
    reveal_strlit("");
    reveal_strlit("A Minecraft Server");
    reveal_strlit("");
    reveal_strlit("");
    reveal_strlit("");
    reveal_strlit("");
    reveal_strlit("localhost");
    reveal_strlit("");
    reveal_strlit("");
    reveal_strlit("deflate");
    reveal_strlit("");
    reveal_strlit("vanilla");
    reveal_strlit("");
    assert(c.unknown().dom() =~= Set::<Seq<char>>::empty());
}

/// The header timestamp of any clock reading holds no line feed: it is
/// zero-padded digits, `-`, `:`, spaces and `UTC`.
pub proof fn lemma_timestamp_no_newline(secs: int)
    ensures
        no_newline(spec_timestamp(secs)),
{
    let days = secs / 86400;
    let tod = secs % 86400;
    let (y, mo, d) = crate::config::spec_epoch_days_to_ymd(days);
    let (y, mo, d, h, mi, sec) = (
        y as nat,
        mo as nat,
        d as nat,
        (tod / 3600) as nat,
        ((tod % 3600) / 60) as nat,
        (tod % 60) as nat,
    );
    lemma_padded_digits_no_newline(y, 4);
    lemma_padded_digits_no_newline(mo, 2);
    lemma_padded_digits_no_newline(d, 2);
    lemma_padded_digits_no_newline(h, 2);
    lemma_padded_digits_no_newline(mi, 2);
    lemma_padded_digits_no_newline(sec, 2);
    let t1 = crate::text::padded_digits(y, 4).push('-');
    let t2 = t1 + crate::text::padded_digits(mo, 2);
    lemma_no_newline_concat(t1, crate::text::padded_digits(mo, 2));
    let t3 = t2.push('-');
    let t4 = t3 + crate::text::padded_digits(d, 2);
    lemma_no_newline_concat(t3, crate::text::padded_digits(d, 2));
    let t5 = t4.push(' ');
    let t6 = t5 + crate::text::padded_digits(h, 2);
    lemma_no_newline_concat(t5, crate::text::padded_digits(h, 2));
    let t7 = t6.push(':');
    let t8 = t7 + crate::text::padded_digits(mi, 2);
    lemma_no_newline_concat(t7, crate::text::padded_digits(mi, 2));
    let t9 = t8.push(':');
    let t10 = t9 + crate::text::padded_digits(sec, 2);
    lemma_no_newline_concat(t9, crate::text::padded_digits(sec, 2));
    let t11 = t10.push(' ').push('U').push('T').push('C');
    assert(t11 == timestamp_text(y, mo, d, h, mi, sec));
    assert(no_newline(t11));
}

/// What [`ServerConfig::save_text`] writes reads back to the same settings
/// and unknown keys, whatever the clock read: the header timestamp never
/// holds a line feed, so only the configuration's own strings and unknown
/// keys need to be savable.
pub proof fn lemma_save_text_reloads(c: ServerConfig, d: ServerConfig, secs: int)
    requires
        c.wf(),
        savable(c, Seq::empty()),
        d.read_from(spec_parse_properties(ServerConfig::spec_properties_text(c, spec_timestamp(secs)))),
    ensures
        c.read_from(spec_parse_properties(ServerConfig::spec_properties_text(c, spec_timestamp(secs)))),
        same_settings(c, d),
{
    lemma_timestamp_no_newline(secs);
    assert(savable(c, spec_timestamp(secs)));
    lemma_save_load_roundtrip(c, spec_timestamp(secs));
    lemma_saved_config_reloads(c, d, spec_timestamp(secs));
}

} // verus!

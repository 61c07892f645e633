use oxidized_server::connection::{
    handle_handshake, handle_status, is_valid_player_name, login_compression,
    reader_rate_exceeded, status_sample_size, ClientIntent, ConnectionRateLimiter,
    ConnectionState, HandshakeOutcome, StatusAction, StatusPacket,
    DEFAULT_MAX_CONNECTIONS_PER_WINDOW, DEFAULT_RATE_LIMIT_WINDOW_MS, MAX_PACKETS_PER_TICK,
    PROTOCOL_VERSION,
};
use oxidized_server::movement::PacketWindow;
use oxidized_server::session::{
    clamp_view_distance, command_permission_level, flying_after_abilities, is_hat_visible,
    is_registered_play_packet, moving_average_latency, should_deliver, skin_change,
    swing_animation, teleports_to_resend, Keepalive, KeepaliveReply, KeepaliveTick,
};
use oxidized_server::session::{
    build_shared_flags, creative_slot_action, internal_slot_to_equipment, is_valid_hotbar_slot,
    pick_item_action, player_input_change, CreativeSlotAction, PickAction, EQUIPMENT_CHEST,
    EQUIPMENT_FEET, EQUIPMENT_HEAD, EQUIPMENT_LEGS, EQUIPMENT_MAIN_HAND, EQUIPMENT_OFF_HAND,
    POSE_CROUCHING, POSE_STANDING,
};
use oxidized_server::blocks::GameMode;
use oxidized_server::connection::{
    configuration_step, ConfigurationAction, ConfigurationFault, ConfigurationPacket,
    ConfigurationPhase,
};

#[test]
fn keepalive_ping_and_response() {
    let mut k = Keepalive::new(0);
    assert_eq!(k.on_timer(15_000, 1_700_000_000_000, 30_000), KeepaliveTick::SendPing(1_700_000_000_000));
    assert!(k.pending);
    // A pending ping that has not timed out waits.
    assert_eq!(k.on_timer(29_999, 99, 30_000), KeepaliveTick::Wait);
    assert_eq!(k.challenge, 1_700_000_000_000);
    // The right id is accepted with the moving average latency.
    assert_eq!(k.on_response(1_700_000_000_000, 100, 20), KeepaliveReply::Accepted(40));
    assert!(!k.pending);
    // Answering again is a mismatch.
    assert_eq!(k.on_response(1_700_000_000_000, 100, 40), KeepaliveReply::Mismatch);
}

#[test]
fn keepalive_times_out_and_rejects_wrong_id() {
    let mut k = Keepalive::new(0);
    k.on_timer(1000, 5, 30_000);
    assert_eq!(k.on_response(6, 10, 0), KeepaliveReply::Mismatch);
    assert!(k.pending);
    assert_eq!(k.on_timer(31_000, 7, 30_000), KeepaliveTick::TimedOut);
}

#[test]
fn latency_moving_average_rounds_toward_zero() {
    assert_eq!(moving_average_latency(0, 7), 1);
    assert_eq!(moving_average_latency(100, 200), 125);
    assert_eq!(moving_average_latency(0, -7), -1);
    assert_eq!(moving_average_latency(i32::MAX, i32::MAX), i32::MAX);
    assert_eq!(moving_average_latency(i32::MIN, i32::MIN), i32::MIN);
}

#[test]
fn broadcast_delivery_filter() {
    assert!(should_deliver(None, None, 5));
    assert!(should_deliver(Some(5), None, 5));
    assert!(!should_deliver(Some(6), None, 5));
    assert!(!should_deliver(None, Some(5), 5));
    assert!(should_deliver(None, Some(6), 5));
    assert!(!should_deliver(Some(5), Some(5), 5));
}

#[test]
fn teleports_resend_after_one_second() {
    let mut sent = vec![0u64, 1500, 1000, 2500];
    let due = teleports_to_resend(&mut sent, 2000);
    assert_eq!(due, vec![0, 2]);
    assert_eq!(sent, vec![2000, 1500, 2000, 2500]);
}

#[test]
fn client_settings_rules() {
    assert_eq!(clamp_view_distance(0, 10), 2);
    assert_eq!(clamp_view_distance(12, 10), 10);
    assert_eq!(clamp_view_distance(6, 10), 6);
    assert_eq!(skin_change(0x7F, 0x7F), (false, false));
    assert_eq!(skin_change(0x7F, 0x3F), (true, true));
    assert_eq!(skin_change(0x7F, 0x7E), (true, false));
    assert!(is_hat_visible(0x40));
    assert!(!is_hat_visible(0x3F));
    assert_eq!(swing_animation(1), 3);
    assert_eq!(swing_animation(0), 0);
    assert!(flying_after_abilities(true, true));
    assert!(!flying_after_abilities(true, false));
    assert_eq!(command_permission_level(7), 4);
    assert_eq!(command_permission_level(-1), 0);
    assert_eq!(command_permission_level(2), 2);
    assert!(is_registered_play_packet(0));
    assert!(is_registered_play_packet(0x44));
    assert!(!is_registered_play_packet(0x45));
    assert!(!is_registered_play_packet(-1));
}

#[test]
fn connection_rate_limiter_per_address() {
    let mut limiter = ConnectionRateLimiter::new(DEFAULT_MAX_CONNECTIONS_PER_WINDOW, DEFAULT_RATE_LIMIT_WINDOW_MS);
    let addr = 0x7f00_0001u128;
    for i in 0..DEFAULT_MAX_CONNECTIONS_PER_WINDOW {
        assert!(limiter.check(addr, 100 + i as u64));
    }
    assert!(!limiter.check(addr, 200));
    // Another address is counted on its own.
    assert!(limiter.check(addr + 1, 200));
    // Once the window has passed, the address may connect again.
    assert!(limiter.check(addr, 100 + DEFAULT_RATE_LIMIT_WINDOW_MS + 1));
    let mut zero = ConnectionRateLimiter::new(0, 1000);
    assert!(!zero.check(1, 0));
}

#[test]
fn connection_rate_limiter_cleanup_keeps_fresh_entries() {
    let mut limiter = ConnectionRateLimiter::new(1, 1000);
    assert!(limiter.check(1, 0));
    assert!(limiter.check(2, 1500));
    limiter.cleanup(2000);
    // Address 1's entry was stale and is gone, so it starts afresh.
    assert!(limiter.check(1, 2000));
    // Address 2's entry is still there and full.
    assert!(!limiter.check(2, 2100));
}

#[test]
fn reader_rate_limit() {
    let mut w = PacketWindow::new(0);
    for _ in 0..MAX_PACKETS_PER_TICK {
        assert!(!reader_rate_exceeded(&mut w, 10));
    }
    assert!(reader_rate_exceeded(&mut w, 49));
    assert!(!reader_rate_exceeded(&mut w, 50));
}

#[test]
fn handshake_transitions() {
    assert_eq!(handle_handshake(false, ClientIntent::Login, PROTOCOL_VERSION), HandshakeOutcome::Ignore);
    assert_eq!(handle_handshake(true, ClientIntent::Status, 1), HandshakeOutcome::Next(ConnectionState::Status));
    assert_eq!(handle_handshake(true, ClientIntent::Login, PROTOCOL_VERSION), HandshakeOutcome::Next(ConnectionState::Login));
    assert_eq!(handle_handshake(true, ClientIntent::Transfer, PROTOCOL_VERSION), HandshakeOutcome::Next(ConnectionState::Login));
    assert_eq!(handle_handshake(true, ClientIntent::Login, 767), HandshakeOutcome::VersionMismatch);
    assert_eq!(handle_handshake(true, ClientIntent::Transfer, 0), HandshakeOutcome::VersionMismatch);
}

#[test]
fn status_exchange() {
    let mut requested = false;
    assert_eq!(handle_status(StatusPacket::StatusRequest, &mut requested), StatusAction::SendStatus);
    assert!(requested);
    assert_eq!(handle_status(StatusPacket::StatusRequest, &mut requested), StatusAction::Disconnect);
    assert_eq!(handle_status(StatusPacket::Other, &mut requested), StatusAction::Ignore);
    assert_eq!(handle_status(StatusPacket::PingRequest, &mut requested), StatusAction::PongAndClose);
    assert_eq!(status_sample_size(3), 3);
    assert_eq!(status_sample_size(50), 12);
}

#[test]
fn login_rules() {
    assert!(is_valid_player_name("Notch"));
    assert!(is_valid_player_name("abcdefghijklmnop"));
    assert!(!is_valid_player_name("abcdefghijklmnopq"));
    assert!(!is_valid_player_name(""));
    // Sixteen bytes, not sixteen characters.
    assert!(!is_valid_player_name("ééééééééé"));
    assert_eq!(login_compression(256), Some(256));
    assert_eq!(login_compression(0), Some(0));
    assert_eq!(login_compression(-1), None);
}

#[test]
fn shared_flags_bits() {
    assert_eq!(build_shared_flags(false, false, false), 0);
    assert_eq!(build_shared_flags(true, false, false), 0x02);
    assert_eq!(build_shared_flags(false, true, false), 0x08);
    assert_eq!(build_shared_flags(false, false, true), 0x80);
    assert_eq!(build_shared_flags(true, true, true), 0x8A);
}

#[test]
fn player_input_changes_pose() {
    assert_eq!(player_input_change(false, false, true, false), (true, POSE_CROUCHING));
    assert_eq!(player_input_change(true, false, true, false), (false, POSE_CROUCHING));
    assert_eq!(player_input_change(true, true, false, true), (true, POSE_STANDING));
    assert_eq!(player_input_change(false, false, false, false), (false, POSE_STANDING));
}

#[test]
fn hotbar_slot_range() {
    assert!(is_valid_hotbar_slot(0));
    assert!(is_valid_hotbar_slot(8));
    assert!(!is_valid_hotbar_slot(9));
    assert!(!is_valid_hotbar_slot(-1));
}

#[test]
fn equipment_slot_mapping() {
    assert_eq!(internal_slot_to_equipment(3, 3), Some(EQUIPMENT_MAIN_HAND));
    assert_eq!(internal_slot_to_equipment(3, 4), None);
    assert_eq!(internal_slot_to_equipment(40, 0), Some(EQUIPMENT_OFF_HAND));
    assert_eq!(internal_slot_to_equipment(36, 0), Some(EQUIPMENT_HEAD));
    assert_eq!(internal_slot_to_equipment(37, 0), Some(EQUIPMENT_CHEST));
    assert_eq!(internal_slot_to_equipment(38, 0), Some(EQUIPMENT_LEGS));
    assert_eq!(internal_slot_to_equipment(39, 0), Some(EQUIPMENT_FEET));
    assert_eq!(internal_slot_to_equipment(20, 20), None);
}

#[test]
fn creative_slot_decisions() {
    assert_eq!(creative_slot_action(GameMode::Survival, 5, Some(5), false, 1, 64), CreativeSlotAction::NotCreative);
    assert_eq!(creative_slot_action(GameMode::Creative, -1, None, false, 1, 64), CreativeSlotAction::Drop);
    assert_eq!(creative_slot_action(GameMode::Creative, 0, None, false, 1, 64), CreativeSlotAction::NoStorage);
    assert_eq!(creative_slot_action(GameMode::Creative, 36, Some(0), false, 65, 64), CreativeSlotAction::OverStacked);
    assert_eq!(creative_slot_action(GameMode::Creative, 36, Some(0), true, 65, 64), CreativeSlotAction::Store(0));
    assert_eq!(creative_slot_action(GameMode::Creative, 36, Some(0), false, 64, 64), CreativeSlotAction::Store(0));
}

#[test]
fn pick_item_decisions() {
    assert_eq!(pick_item_action(GameMode::Spectator, Some(1)), PickAction::Refused);
    assert_eq!(pick_item_action(GameMode::Adventure, None), PickAction::Refused);
    assert_eq!(pick_item_action(GameMode::Survival, Some(4)), PickAction::Select(4));
    assert_eq!(pick_item_action(GameMode::Survival, Some(20)), PickAction::SwapIntoHotbar(20));
    assert_eq!(pick_item_action(GameMode::Creative, None), PickAction::AddFresh);
    assert_eq!(pick_item_action(GameMode::Survival, None), PickAction::NotFound);
}

#[test]
fn configuration_sequence() {
    let mut phase = ConfigurationPhase::AwaitingKnownPacks;
    assert_eq!(configuration_step(&mut phase, ConfigurationPacket::ClientInformation), ConfigurationAction::StoreClientInformation);
    assert_eq!(configuration_step(&mut phase, ConfigurationPacket::CustomPayload), ConfigurationAction::Ignore);
    assert_eq!(phase, ConfigurationPhase::AwaitingKnownPacks);
    assert_eq!(configuration_step(&mut phase, ConfigurationPacket::SelectKnownPacks), ConfigurationAction::SendRegistries);
    assert_eq!(phase, ConfigurationPhase::AwaitingFinish);
    assert_eq!(configuration_step(&mut phase, ConfigurationPacket::FinishConfiguration), ConfigurationAction::EnterPlay);
    assert_eq!(phase, ConfigurationPhase::Done);
}

#[test]
fn configuration_unexpected_packets() {
    let mut phase = ConfigurationPhase::AwaitingKnownPacks;
    let r = configuration_step(&mut phase, ConfigurationPacket::Other);
    assert_eq!(r, ConfigurationAction::Disconnect(ConfigurationFault::UnexpectedPacket));
    assert_eq!(ConfigurationFault::UnexpectedPacket.reason(), "Unexpected packet during configuration");
    let mut phase = ConfigurationPhase::AwaitingFinish;
    let r = configuration_step(&mut phase, ConfigurationPacket::SelectKnownPacks);
    assert_eq!(r, ConfigurationAction::Disconnect(ConfigurationFault::ExpectedFinish));
    assert_eq!(ConfigurationFault::ExpectedFinish.reason(), "Unexpected packet \u{2014} expected finish configuration");
    assert_eq!(phase, ConfigurationPhase::AwaitingFinish);
}

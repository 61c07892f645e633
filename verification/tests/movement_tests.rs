use oxidized_server::movement::{
    admit_movement, apply_speed_skip, fall_flying_after_move, plan_movement_broadcast,
    should_skip_speed_check, EntityMove, MoveCheck, MovementAdmission, PacketWindow,
    MAX_MOVEMENT_PACKETS_PER_SECOND,
};

#[test]
fn test_skip_when_creative_or_spectator() {
    assert!(should_skip_speed_check(true, true, true, false));
}

#[test]
fn test_no_skip_in_survival_with_defaults() {
    assert!(!should_skip_speed_check(false, true, true, false));
}

#[test]
fn test_skip_when_player_movement_check_disabled() {
    assert!(should_skip_speed_check(false, false, true, false));
    assert!(should_skip_speed_check(false, false, true, true));
    assert!(should_skip_speed_check(false, false, false, false));
}

#[test]
fn test_skip_elytra_when_elytra_check_disabled_and_flying() {
    assert!(should_skip_speed_check(false, true, false, true));
}

#[test]
fn test_no_skip_elytra_check_disabled_but_not_flying() {
    assert!(!should_skip_speed_check(false, true, false, false));
}

#[test]
fn test_all_rules_disabled_still_skips() {
    assert!(should_skip_speed_check(false, false, false, true));
    assert!(should_skip_speed_check(false, false, false, false));
}

#[test]
fn test_creative_overrides_regardless_of_rules() {
    assert!(should_skip_speed_check(true, false, false, false));
    assert!(should_skip_speed_check(true, true, false, true));
}

#[test]
fn movement_window_throttles_after_limit() {
    let mut window = PacketWindow::new(0);
    for _ in 0..MAX_MOVEMENT_PACKETS_PER_SECOND {
        assert_eq!(admit_movement(false, &mut window, 10), MovementAdmission::Proceed);
    }
    assert_eq!(admit_movement(false, &mut window, 20), MovementAdmission::Throttled);
    assert_eq!(window.count, MAX_MOVEMENT_PACKETS_PER_SECOND + 1);
    // A new second starts a fresh window.
    assert_eq!(admit_movement(false, &mut window, 1000), MovementAdmission::Proceed);
    assert_eq!(window.count, 1);
    assert_eq!(window.window_start_ms, 1000);
}

#[test]
fn movement_invalid_values_disconnect_without_counting() {
    let mut window = PacketWindow::new(5);
    assert_eq!(admit_movement(true, &mut window, 6), MovementAdmission::Disconnect);
    assert_eq!(window.count, 0);
}

#[test]
fn movement_window_record_counts_and_resets() {
    let mut w = PacketWindow { count: 3, window_start_ms: 100 };
    assert!(!w.record(120, 50, 5));
    assert_eq!(w.count, 4);
    assert!(w.record(149, 50, 3));
    assert_eq!(w.count, 5);
    assert!(!w.record(150, 50, 3));
    assert_eq!(w.count, 1);
    assert_eq!(w.window_start_ms, 150);
}

#[test]
fn movement_speed_skip_keeps_invalid_verdict() {
    let rejected = MoveCheck { has_invalid_values: false, is_correction_needed: true, is_accepted: false };
    let skipped = apply_speed_skip(true, rejected);
    assert!(!skipped.is_correction_needed);
    assert!(skipped.is_accepted);
    assert_eq!(apply_speed_skip(false, rejected), rejected);
    let invalid = MoveCheck { has_invalid_values: true, is_correction_needed: true, is_accepted: false };
    assert_eq!(apply_speed_skip(true, invalid), invalid);
}

#[test]
fn movement_landing_ends_elytra_flight() {
    assert!(!fall_flying_after_move(true, true));
    assert!(fall_flying_after_move(true, false));
    assert!(!fall_flying_after_move(false, false));
}

#[test]
fn movement_broadcast_packets() {
    let none = plan_movement_broadcast(false, false, false, true);
    assert_eq!(none.movement, None);
    assert!(!none.head_rotation);
    let both = plan_movement_broadcast(true, true, true, true);
    assert_eq!(both.movement, Some(EntityMove::PositionAndRotation));
    assert!(both.head_rotation);
    let far = plan_movement_broadcast(true, true, true, false);
    assert_eq!(far.movement, Some(EntityMove::PositionSync));
    let pos = plan_movement_broadcast(true, true, false, true);
    assert_eq!(pos.movement, Some(EntityMove::Position));
    assert!(!pos.head_rotation);
    let far_pos = plan_movement_broadcast(true, true, false, false);
    assert_eq!(far_pos.movement, Some(EntityMove::PositionSync));
    let rot = plan_movement_broadcast(true, false, true, true);
    assert_eq!(rot.movement, Some(EntityMove::Rotation));
    assert!(rot.head_rotation);
    let unchanged = plan_movement_broadcast(true, false, false, true);
    assert_eq!(unchanged.movement, None);
}

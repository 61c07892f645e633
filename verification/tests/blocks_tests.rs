use oxidized_server::blocks::{
    direction_from_name, double_block_break_companion, half_from_cursor, is_spawn_protected,
    is_within_build_height, slab_type_from_cursor, BlockPos, Direction, DoubleBlockInfo,
    MAX_BUILD_HEIGHT, MIN_BUILD_HEIGHT,
};
use oxidized_server::mining::{
    handle_player_action, ActionOutcome, MiningState, PlayerAction, SpawnProtection,
    MIN_MINING_DURATION_MS,
};
use oxidized_server::placement::{handle_use_item_on, PlaceOutcome, UseItemOn};
use oxidized_server::blocks::GameMode;

fn protected_at_origin(radius: u32, pos: BlockPos) -> bool {
    is_spawn_protected(radius, 0, 0, pos)
}

#[test]
fn test_build_height_constants_match_overworld() {
    assert_eq!(MIN_BUILD_HEIGHT, -64);
    assert_eq!(MAX_BUILD_HEIGHT, 319);
}

#[test]
fn test_build_height_valid_at_min() {
    assert!(is_within_build_height(BlockPos::new(0, MIN_BUILD_HEIGHT, 0)));
}

#[test]
fn test_build_height_valid_at_max() {
    assert!(is_within_build_height(BlockPos::new(0, MAX_BUILD_HEIGHT, 0)));
}

#[test]
fn test_build_height_valid_middle() {
    assert!(is_within_build_height(BlockPos::new(0, 64, 0)));
}

#[test]
fn test_build_height_below_min() {
    assert!(!is_within_build_height(BlockPos::new(0, MIN_BUILD_HEIGHT - 1, 0)));
}

#[test]
fn test_build_height_above_max() {
    assert!(!is_within_build_height(BlockPos::new(0, MAX_BUILD_HEIGHT + 1, 0)));
}

#[test]
fn test_spawn_protection_disabled_when_radius_zero() {
    assert!(!protected_at_origin(0, BlockPos::new(0, 64, 0)));
}

#[test]
fn test_spawn_protection_at_spawn_origin() {
    assert!(protected_at_origin(16, BlockPos::new(0, 64, 0)));
}

#[test]
fn test_spawn_protection_at_boundary() {
    assert!(protected_at_origin(16, BlockPos::new(15, 64, 0)));
    assert!(!protected_at_origin(16, BlockPos::new(16, 64, 0)));
}

#[test]
fn test_spawn_protection_diagonal() {
    assert!(protected_at_origin(10, BlockPos::new(9, 64, 9)));
    assert!(!protected_at_origin(10, BlockPos::new(10, 64, 10)));
}

#[test]
fn test_spawn_protection_negative_coords() {
    assert!(protected_at_origin(16, BlockPos::new(-15, 64, -15)));
}

#[test]
fn spawn_protection_around_other_spawn_and_extreme_coords() {
    assert!(is_spawn_protected(4, 100, -50, BlockPos::new(103, 0, -47)));
    assert!(!is_spawn_protected(4, 100, -50, BlockPos::new(104, 0, -50)));
    // Far corners of the coordinate range do not overflow.
    assert!(!is_spawn_protected(u32::MAX, i32::MIN, i32::MIN, BlockPos::new(i32::MAX, 0, i32::MAX)));
    assert!(is_spawn_protected(u32::MAX, i32::MIN, 0, BlockPos::new(i32::MAX, 0, 0)) == false);
    assert!(is_spawn_protected(u32::MAX, -1000, 0, BlockPos::new(1000, 0, 0)));
}

#[test]
fn direction_relative_and_opposite() {
    let p = BlockPos::new(1, 2, 3);
    assert_eq!(p.relative(Direction::North), BlockPos::new(1, 2, 2));
    assert_eq!(p.relative(Direction::East), BlockPos::new(2, 2, 3));
    assert_eq!(p.above(), BlockPos::new(1, 3, 3));
    assert_eq!(p.below(), BlockPos::new(1, 1, 3));
    for d in [Direction::Down, Direction::Up, Direction::North, Direction::South, Direction::West, Direction::East] {
        assert_eq!(p.relative(d).relative(d.opposite()), p);
        assert_eq!(d.opposite().opposite(), d);
    }
    assert!(Direction::North.is_horizontal());
    assert!(!Direction::Up.is_horizontal());
}

#[test]
fn direction_names() {
    assert_eq!(direction_from_name("north"), Some(Direction::North));
    assert_eq!(direction_from_name("south"), Some(Direction::South));
    assert_eq!(direction_from_name("east"), Some(Direction::East));
    assert_eq!(direction_from_name("west"), Some(Direction::West));
    assert_eq!(direction_from_name("up"), Some(Direction::Up));
    assert_eq!(direction_from_name("down"), Some(Direction::Down));
    assert_eq!(direction_from_name("North"), None);
    assert_eq!(direction_from_name(""), None);
}

#[test]
fn half_and_slab_type_from_cursor() {
    assert_eq!(half_from_cursor(false, Direction::Down), "top");
    assert_eq!(half_from_cursor(true, Direction::Up), "bottom");
    assert_eq!(half_from_cursor(true, Direction::North), "top");
    assert_eq!(half_from_cursor(false, Direction::East), "bottom");
    assert_eq!(slab_type_from_cursor(true, Direction::West), "top");
    assert_eq!(slab_type_from_cursor(false, Direction::Down), "top");
}

fn info(door: bool, bed: bool, half: Option<&str>, part: Option<&str>, facing: Option<&str>) -> DoubleBlockInfo {
    DoubleBlockInfo {
        is_door_or_tall_plant: door,
        is_bed: bed,
        half: half.map(String::from),
        part: part.map(String::from),
        facing: facing.map(String::from),
    }
}

#[test]
fn double_block_companions() {
    let pos = BlockPos::new(5, 70, 5);
    assert_eq!(double_block_break_companion(&info(true, false, Some("upper"), None, None), pos), Some(BlockPos::new(5, 69, 5)));
    assert_eq!(double_block_break_companion(&info(true, false, Some("lower"), None, None), pos), Some(BlockPos::new(5, 71, 5)));
    assert_eq!(double_block_break_companion(&info(true, false, None, None, None), pos), None);
    // A bed head facing north has its foot to the south, and back.
    assert_eq!(double_block_break_companion(&info(false, true, None, Some("head"), Some("north")), pos), Some(BlockPos::new(5, 70, 6)));
    assert_eq!(double_block_break_companion(&info(false, true, None, Some("foot"), Some("north")), BlockPos::new(5, 70, 6)), Some(pos));
    assert_eq!(double_block_break_companion(&info(false, true, None, Some("foot"), Some("sideways")), pos), None);
    assert_eq!(double_block_break_companion(&info(false, false, Some("upper"), None, None), pos), None);
}

const SURVIVAL: GameMode = GameMode::Survival;
const NO_PROTECTION: SpawnProtection = SpawnProtection { radius: 0, spawn_x: 0, spawn_z: 0 };

#[test]
fn mining_survival_start_then_stop() {
    let mut m = MiningState::new();
    let pos = BlockPos::new(3, 60, 3);
    assert_eq!(handle_player_action(&mut m, SURVIVAL, PlayerAction::StartDestroyBlock, pos, NO_PROTECTION, true, 1000), ActionOutcome::MiningStarted);
    assert_eq!(m.start_pos, Some(pos));
    assert_eq!(handle_player_action(&mut m, SURVIVAL, PlayerAction::StopDestroyBlock, pos, NO_PROTECTION, true, 1000 + MIN_MINING_DURATION_MS - 1), ActionOutcome::StopTooFast);
    assert_eq!(handle_player_action(&mut m, SURVIVAL, PlayerAction::StopDestroyBlock, BlockPos::new(4, 60, 3), NO_PROTECTION, true, 2000), ActionOutcome::StopPositionMismatch);
    assert_eq!(handle_player_action(&mut m, SURVIVAL, PlayerAction::StopDestroyBlock, pos, NO_PROTECTION, true, 1000 + MIN_MINING_DURATION_MS), ActionOutcome::MiningFinished);
    assert_eq!(m, MiningState::new());
}

#[test]
fn mining_checks_in_order() {
    let mut m = MiningState::new();
    let pos = BlockPos::new(0, 64, 0);
    let guard = SpawnProtection { radius: 16, spawn_x: 0, spawn_z: 0 };
    assert_eq!(handle_player_action(&mut m, GameMode::Spectator, PlayerAction::DropItem, pos, guard, true, 0), ActionOutcome::SpectatorRejected);
    assert_eq!(handle_player_action(&mut m, SURVIVAL, PlayerAction::StartDestroyBlock, BlockPos::new(0, 320, 0), guard, false, 0), ActionOutcome::OutsideBuildHeight);
    assert_eq!(handle_player_action(&mut m, SURVIVAL, PlayerAction::StartDestroyBlock, pos, guard, false, 0), ActionOutcome::SpawnProtected);
    assert_eq!(handle_player_action(&mut m, SURVIVAL, PlayerAction::AbortDestroyBlock, pos, guard, false, 0), ActionOutcome::OutOfReach);
    assert_eq!(handle_player_action(&mut m, SURVIVAL, PlayerAction::AbortDestroyBlock, pos, guard, true, 0), ActionOutcome::MiningAborted);
    assert_eq!(handle_player_action(&mut m, GameMode::Creative, PlayerAction::StartDestroyBlock, BlockPos::new(40, 64, 0), guard, true, 0), ActionOutcome::BreakBlock);
    assert_eq!(handle_player_action(&mut m, GameMode::Creative, PlayerAction::StopDestroyBlock, BlockPos::new(40, 64, 0), guard, true, 0), ActionOutcome::Acknowledge);
    assert_eq!(handle_player_action(&mut m, SURVIVAL, PlayerAction::SwapItemWithOffhand, pos, guard, false, 0), ActionOutcome::SwapWithOffhand);
    assert_eq!(handle_player_action(&mut m, SURVIVAL, PlayerAction::DropAllItems, pos, guard, false, 0), ActionOutcome::DropAllItems);
    assert_eq!(handle_player_action(&mut m, SURVIVAL, PlayerAction::ReleaseUseItem, pos, guard, false, 0), ActionOutcome::Ignored);
    assert_eq!(m, MiningState::new());
}

fn request() -> UseItemOn {
    UseItemOn {
        game_mode: SURVIVAL,
        cursor_in_range: true,
        within_reach: true,
        clicked: BlockPos::new(10, 64, 10),
        face: Direction::Up,
        protection: NO_PROTECTION,
        is_sneaking: false,
        has_items: true,
        clicked_interactable: false,
        block_to_place: Some(1),
        target_replaceable: true,
        intersects_player: false,
    }
}

#[test]
fn placement_places_against_clicked_face() {
    let r = request();
    assert_eq!(handle_use_item_on(&r), PlaceOutcome::Place { pos: BlockPos::new(10, 65, 10), state: 1, consume_item: true });
    let creative = UseItemOn { game_mode: GameMode::Creative, has_items: false, ..r };
    assert_eq!(handle_use_item_on(&creative), PlaceOutcome::Place { pos: BlockPos::new(10, 65, 10), state: 1, consume_item: false });
}

#[test]
fn placement_refusals_in_order() {
    let r = request();
    assert_eq!(handle_use_item_on(&UseItemOn { game_mode: GameMode::Spectator, cursor_in_range: false, ..r }), PlaceOutcome::Spectator);
    assert_eq!(handle_use_item_on(&UseItemOn { cursor_in_range: false, within_reach: false, ..r }), PlaceOutcome::CursorOutOfRange);
    assert_eq!(handle_use_item_on(&UseItemOn { within_reach: false, ..r }), PlaceOutcome::OutOfReach);
    assert_eq!(handle_use_item_on(&UseItemOn { clicked: BlockPos::new(0, 319, 0), ..r }), PlaceOutcome::TooHigh);
    assert_eq!(handle_use_item_on(&UseItemOn { clicked: BlockPos::new(0, -64, 0), face: Direction::Down, ..r }), PlaceOutcome::TooLow);
    assert_eq!(handle_use_item_on(&UseItemOn { protection: SpawnProtection { radius: 16, spawn_x: 0, spawn_z: 0 }, ..r }), PlaceOutcome::SpawnProtected);
    assert_eq!(handle_use_item_on(&UseItemOn { clicked_interactable: true, ..r }), PlaceOutcome::UseClickedBlock);
    assert_eq!(handle_use_item_on(&UseItemOn { clicked_interactable: true, is_sneaking: true, ..r }), PlaceOutcome::Place { pos: BlockPos::new(10, 65, 10), state: 1, consume_item: true });
    assert_eq!(handle_use_item_on(&UseItemOn { has_items: false, ..r }), PlaceOutcome::NoItems);
    assert_eq!(handle_use_item_on(&UseItemOn { block_to_place: None, ..r }), PlaceOutcome::NotPlaceable);
    assert_eq!(handle_use_item_on(&UseItemOn { target_replaceable: false, ..r }), PlaceOutcome::NotReplaceable);
    assert_eq!(handle_use_item_on(&UseItemOn { intersects_player: true, ..r }), PlaceOutcome::IntersectsPlayer);
}

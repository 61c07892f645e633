//! Block placement: the checks a `UseItemOn` packet goes through before the
//! held block is placed against the clicked face, in the order vanilla
//! applies them.

use vstd::prelude::*;
use crate::blocks::{
    BlockPos, Direction, GameMode, MAX_BUILD_HEIGHT, can_step, is_spawn_protected,
    is_within_build_height, spec_relative, spec_spawn_protected, spec_within_build_height,
};
use crate::mining::SpawnProtection;

verus! {

/// What is known of a `UseItemOn` packet and the world around it.
#[derive(Clone, Copy, Debug, PartialEq, Eq, Structural)]
pub struct UseItemOn {
    /// The acting player's game mode.
    pub game_mode: GameMode,
    /// Every cursor coordinate on the clicked face lies in `[0, 1]` (with a
    /// small tolerance).
    pub cursor_in_range: bool,
    /// The clicked block lies within the player's interaction range.
    pub within_reach: bool,
    /// The clicked block.
    pub clicked: BlockPos,
    /// The clicked face.
    pub face: Direction,
    /// The spawn protection in force.
    pub protection: SpawnProtection,
    /// The player is sneaking.
    pub is_sneaking: bool,
    /// The selected hotbar stack is not empty.
    pub has_items: bool,
    /// The clicked block is loaded and has a use action of its own (chest,
    /// crafting table, door, bed, ...).
    pub clicked_interactable: bool,
    /// The block state the held item places against this face, when it is
    /// a placeable block.
    pub block_to_place: Option<u32>,
    /// The block at the placement position is loaded and can be replaced
    /// (air, water, tall grass, ...).
    pub target_replaceable: bool,
    /// A full block at the placement position would overlap the player.
    pub intersects_player: bool,
}

/// What the connection must do for one `UseItemOn` packet.
#[derive(Clone, Copy, Debug, PartialEq, Eq, Structural)]
pub enum PlaceOutcome {
    /// Spectators neither place nor use blocks: acknowledge.
    Spectator,
    /// The cursor lies off the face (a modified client): acknowledge.
    CursorOutOfRange,
    /// The clicked block is out of reach: acknowledge.
    OutOfReach,
    /// The placement position is above the build height: show the
    /// "too high" message and acknowledge.
    TooHigh,
    /// The placement position is below the build height: show the
    /// "too low" message and acknowledge.
    TooLow,
    /// The clicked block is inside spawn protection: show the message,
    /// resend the clicked block and its neighbour, acknowledge.
    SpawnProtected,
    /// The clicked block is used instead of placing against it: acknowledge.
    UseClickedBlock,
    /// Outside creative, the player holds nothing: acknowledge.
    NoItems,
    /// The held item is not a placeable block: acknowledge.
    NotPlaceable,
    /// The placement position is occupied: resend it and acknowledge.
    NotReplaceable,
    /// The block would overlap the player: resend it and acknowledge.
    IntersectsPlayer,
    /// Place `state` at `pos`; outside creative one item is used up.
    Place { pos: BlockPos, state: u32, consume_item: bool },
}

/// The outcome of a `UseItemOn` packet: the checks run in vanilla's order
/// and the first that fails decides; placement goes against the clicked
/// face, one step from the clicked block.
pub open spec fn spec_use_item_on(u: UseItemOn) -> PlaceOutcome {
    let place = spec_relative(u.clicked, u.face);
    if u.game_mode == GameMode::Spectator {
        PlaceOutcome::Spectator
    } else if !u.cursor_in_range {
        PlaceOutcome::CursorOutOfRange
    } else if !u.within_reach {
        PlaceOutcome::OutOfReach
    } else if !spec_within_build_height(place.y as int) {
        if place.y > MAX_BUILD_HEIGHT {
            PlaceOutcome::TooHigh
        } else {
            PlaceOutcome::TooLow
        }
    } else if spec_spawn_protected(
        u.protection.radius as int,
        u.protection.spawn_x as int,
        u.protection.spawn_z as int,
        u.clicked,
    ) {
        PlaceOutcome::SpawnProtected
    } else if !(u.is_sneaking && u.has_items) && u.clicked_interactable {
        PlaceOutcome::UseClickedBlock
    } else if u.game_mode != GameMode::Creative && !u.has_items {
        PlaceOutcome::NoItems
    } else if u.block_to_place is None {
        PlaceOutcome::NotPlaceable
    } else if !u.target_replaceable {
        PlaceOutcome::NotReplaceable
    } else if u.intersects_player {
        PlaceOutcome::IntersectsPlayer
    } else {
        PlaceOutcome::Place {
            pos: place,
            state: u.block_to_place->0,
            consume_item: u.game_mode != GameMode::Creative,
        }
    }
}

/// Decides what a `UseItemOn` packet does.
pub fn handle_use_item_on(u: &UseItemOn) -> (r: PlaceOutcome)
    requires
        can_step(u.clicked, u.face),
    ensures
        r == spec_use_item_on(*u),
{
    if u.game_mode == GameMode::Spectator {
        return PlaceOutcome::Spectator;
    }
    if !u.cursor_in_range {
        return PlaceOutcome::CursorOutOfRange;
    }
    if !u.within_reach {
        return PlaceOutcome::OutOfReach;
    }
    let place_pos = u.clicked.relative(u.face);
    if !is_within_build_height(place_pos) {
        if place_pos.y > MAX_BUILD_HEIGHT {
            return PlaceOutcome::TooHigh;
        } else {
            return PlaceOutcome::TooLow;
        }
    }
    if is_spawn_protected(u.protection.radius, u.protection.spawn_x, u.protection.spawn_z, u.clicked) {
        return PlaceOutcome::SpawnProtected;
    }
    let suppress_use = u.is_sneaking && u.has_items;
    if !suppress_use && u.clicked_interactable {
        return PlaceOutcome::UseClickedBlock;
    }
    if u.game_mode != GameMode::Creative && !u.has_items {
        return PlaceOutcome::NoItems;
    }
    let state = match u.block_to_place {
        Some(s) => s,
        None => {
            return PlaceOutcome::NotPlaceable;
        },
    };
    if !u.target_replaceable {
        return PlaceOutcome::NotReplaceable;
    }
    if u.intersects_player {
        return PlaceOutcome::IntersectsPlayer;
    }
    PlaceOutcome::Place { pos: place_pos, state, consume_item: u.game_mode != GameMode::Creative }
}

/// A block is only ever placed when every check passes: no spectator, the
/// cursor on the face, the clicked block within reach and outside spawn
/// protection, the position inside the build height, next to the clicked
/// block, replaceable and clear of the player, a placeable held item (held
/// at all outside creative), and no use of an interactable clicked block
/// (unless sneaking with items); a creative player never uses up an item.
pub proof fn lemma_placement_is_safe(u: UseItemOn)
    ensures
        spec_use_item_on(u) matches PlaceOutcome::Place { pos, state, consume_item } ==> {
            &&& spec_within_build_height(pos.y as int)
            &&& !spec_spawn_protected(
                u.protection.radius as int,
                u.protection.spawn_x as int,
                u.protection.spawn_z as int,
                u.clicked,
            )
            &&& u.target_replaceable
            &&& !u.intersects_player
            &&& pos == spec_relative(u.clicked, u.face)
            &&& u.block_to_place == Some(state)
            &&& consume_item == (u.game_mode != GameMode::Creative)
            &&& u.game_mode != GameMode::Spectator
            &&& u.cursor_in_range
            &&& u.within_reach
            &&& (u.clicked_interactable ==> u.is_sneaking && u.has_items)
            &&& (u.game_mode != GameMode::Creative ==> u.has_items)
        },
{
}

/// Each placement check, stated on its own: a spectator never places; a
/// cursor off the face or a block out of reach refuses the packet; a
/// position above or below the build height is reported as too high or
/// too low; spawn protection refuses; a non-creative player with an empty
/// hand places nothing; and when every check passes the held block is
/// placed one step from the clicked block, against the clicked face.
pub proof fn lemma_placement_checks(u: UseItemOn)
    ensures
        u.game_mode == GameMode::Spectator ==> spec_use_item_on(u) == PlaceOutcome::Spectator,
        u.game_mode != GameMode::Spectator && !u.cursor_in_range ==> spec_use_item_on(u)
            == PlaceOutcome::CursorOutOfRange,
        u.game_mode != GameMode::Spectator && u.cursor_in_range && !u.within_reach ==> spec_use_item_on(u)
            == PlaceOutcome::OutOfReach,
        u.game_mode != GameMode::Spectator && u.cursor_in_range && u.within_reach && spec_relative(
            u.clicked,
            u.face,
        ).y > MAX_BUILD_HEIGHT ==> spec_use_item_on(u) == PlaceOutcome::TooHigh,
        u.game_mode != GameMode::Spectator && u.cursor_in_range && u.within_reach && spec_relative(
            u.clicked,
            u.face,
        ).y < crate::blocks::MIN_BUILD_HEIGHT ==> spec_use_item_on(u) == PlaceOutcome::TooLow,
        (spec_use_item_on(u) is NoItems) ==> u.game_mode != GameMode::Creative && !u.has_items,
        u.game_mode != GameMode::Creative && !u.has_items ==> !(spec_use_item_on(u) is Place),
        (u.game_mode != GameMode::Spectator && u.cursor_in_range && u.within_reach
            && spec_within_build_height(spec_relative(u.clicked, u.face).y as int) && !spec_spawn_protected(
            u.protection.radius as int,
            u.protection.spawn_x as int,
            u.protection.spawn_z as int,
            u.clicked,
        ) && !u.clicked_interactable && u.has_items && (u.block_to_place is Some) && u.target_replaceable
            && !u.intersects_player) ==> spec_use_item_on(u) == (PlaceOutcome::Place {
            pos: spec_relative(u.clicked, u.face),
            state: u.block_to_place->0,
            consume_item: u.game_mode != GameMode::Creative,
        }),
{
}

} // verus!

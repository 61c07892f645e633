//! Block digging: what the server does with each `PlayerAction` a client
//! sends, and the per-player mining state that ties a survival
//! `StopDestroyBlock` to the `StartDestroyBlock` before it.

use vstd::prelude::*;
use crate::blocks::{
    BlockPos, GameMode, is_spawn_protected, is_within_build_height, spec_spawn_protected,
    spec_within_build_height,
};

verus! {

/// Minimum survival mining duration in milliseconds (one game tick): a
/// survival break finished sooner than this after it started is refused.
pub const MIN_MINING_DURATION_MS: u64 = 50;

/// The digging actions of the `PlayerAction` packet.
#[derive(Clone, Copy, Debug, PartialEq, Eq, Structural)]
pub enum PlayerAction {
    StartDestroyBlock,
    AbortDestroyBlock,
    StopDestroyBlock,
    DropAllItems,
    DropItem,
    ReleaseUseItem,
    SwapItemWithOffhand,
}

/// The spawn protection in force: the radius and the spawn column.
#[derive(Clone, Copy, Debug, PartialEq, Eq, Structural)]
pub struct SpawnProtection {
    pub radius: u32,
    pub spawn_x: i32,
    pub spawn_z: i32,
}

/// Where and when the player started mining a block in survival.
#[derive(Clone, Copy, Debug, PartialEq, Eq, Structural)]
pub struct MiningState {
    /// The block being mined.
    pub start_pos: Option<BlockPos>,
    /// When the mining started, in milliseconds on a monotonic clock.
    pub start_time_ms: Option<u64>,
}

/// What the connection must do for one `PlayerAction` packet.
#[derive(Clone, Copy, Debug, PartialEq, Eq, Structural)]
pub enum ActionOutcome {
    /// A spectator acted: resend the block and its neighbour on the clicked
    /// face, then acknowledge.
    SpectatorRejected,
    /// A destroy action outside the build height: acknowledge only.
    OutsideBuildHeight,
    /// A start or stop inside spawn protection: show the spawn protection
    /// message, resend the block and its neighbour, acknowledge.
    SpawnProtected,
    /// A destroy action out of reach: resend the block and its neighbour,
    /// acknowledge.
    OutOfReach,
    /// Break the block now (creative start).
    BreakBlock,
    /// Survival mining started: show crack stage 0 to the others and
    /// acknowledge.
    MiningStarted,
    /// A creative stop: acknowledge only.
    Acknowledge,
    /// A survival stop for another block than the one being mined, or with
    /// no mining under way: resend the block and its neighbour, acknowledge.
    StopPositionMismatch,
    /// A survival stop sooner than [`MIN_MINING_DURATION_MS`] after the
    /// start: resend the block and its neighbour, acknowledge.
    StopTooFast,
    /// A survival stop that completes the mining: break the block, then
    /// clear the crack animation.
    MiningFinished,
    /// Mining aborted: clear the crack animation and acknowledge.
    MiningAborted,
    /// Swap the selected hotbar slot with the off hand.
    SwapWithOffhand,
    /// Drop one item of the selected stack.
    DropItem,
    /// Drop the whole selected stack.
    DropAllItems,
    /// Nothing to do (releasing a used item).
    Ignored,
}

/// `true` for the three actions that dig at a block.
pub open spec fn is_destroy_action(a: PlayerAction) -> bool {
    a == PlayerAction::StartDestroyBlock || a == PlayerAction::StopDestroyBlock || a
        == PlayerAction::AbortDestroyBlock
}

/// The state with no mining under way.
pub open spec fn idle() -> MiningState {
    MiningState { start_pos: None, start_time_ms: None }
}

/// `now - start`, or 0 when the clock reads earlier than `start`.
pub open spec fn elapsed(start: u64, now: u64) -> int {
    if now >= start {
        now - start
    } else {
        0
    }
}

/// What a survival `StopDestroyBlock` at `pos` does, given the mining state.
pub open spec fn survival_stop(m: MiningState, pos: BlockPos, now: u64) -> (MiningState, ActionOutcome) {
    if m.start_pos != Some(pos) {
        (m, ActionOutcome::StopPositionMismatch)
    } else if m.start_time_ms is Some && elapsed(m.start_time_ms->0, now) < MIN_MINING_DURATION_MS {
        (m, ActionOutcome::StopTooFast)
    } else {
        (idle(), ActionOutcome::MiningFinished)
    }
}

/// The new mining state and the outcome of one action: spectators are
/// refused first; then a destroy action must lie within the build height,
/// a start or stop outside spawn protection, and a destroy action within
/// reach; then each action does its own work.
pub open spec fn spec_player_action(
    m: MiningState,
    game_mode: GameMode,
    action: PlayerAction,
    pos: BlockPos,
    protection: SpawnProtection,
    within_reach: bool,
    now: u64,
) -> (MiningState, ActionOutcome) {
    if game_mode == GameMode::Spectator {
        (m, ActionOutcome::SpectatorRejected)
    } else if is_destroy_action(action) && !spec_within_build_height(pos.y as int) {
        (m, ActionOutcome::OutsideBuildHeight)
    } else if (action == PlayerAction::StartDestroyBlock || action == PlayerAction::StopDestroyBlock)
        && spec_spawn_protected(
        protection.radius as int,
        protection.spawn_x as int,
        protection.spawn_z as int,
        pos,
    ) {
        (m, ActionOutcome::SpawnProtected)
    } else if is_destroy_action(action) && !within_reach {
        (m, ActionOutcome::OutOfReach)
    } else {
        match action {
            PlayerAction::StartDestroyBlock => if game_mode == GameMode::Creative {
                (m, ActionOutcome::BreakBlock)
            } else {
                (
                    MiningState { start_pos: Some(pos), start_time_ms: Some(now) },
                    ActionOutcome::MiningStarted,
                )
            },
            PlayerAction::StopDestroyBlock => if game_mode == GameMode::Creative {
                (m, ActionOutcome::Acknowledge)
            } else {
                survival_stop(m, pos, now)
            },
            PlayerAction::AbortDestroyBlock => (idle(), ActionOutcome::MiningAborted),
            PlayerAction::SwapItemWithOffhand => (m, ActionOutcome::SwapWithOffhand),
            PlayerAction::DropItem => (m, ActionOutcome::DropItem),
            PlayerAction::DropAllItems => (m, ActionOutcome::DropAllItems),
            PlayerAction::ReleaseUseItem => (m, ActionOutcome::Ignored),
        }
    }
}

impl MiningState {
    /// The start position and the start time are set together and cleared
    /// together (every state the server makes is of this kind).
    pub open spec fn wf(self) -> bool {
        (self.start_pos is Some) == (self.start_time_ms is Some)
    }

    /// No mining under way.
    pub fn new() -> (r: MiningState)
        ensures
            r == idle(),
    {
        MiningState { start_pos: None, start_time_ms: None }
    }
}

/// Decides what a `PlayerAction` packet does and updates the mining state.
/// `within_reach` is whether the block lies within the player's
/// interaction range; `now_ms` is the current time on a monotonic clock.
pub fn handle_player_action(
    mining: &mut MiningState,
    game_mode: GameMode,
    action: PlayerAction,
    pos: BlockPos,
    protection: SpawnProtection,
    within_reach: bool,
    now_ms: u64,
) -> (r: ActionOutcome)
    ensures
        old(mining).wf() ==> final(mining).wf(),
        (*final(mining), r) == spec_player_action(
            *old(mining),
            game_mode,
            action,
            pos,
            protection,
            within_reach,
            now_ms,
        ),
{
    let destroy = matches!(
        action,
        PlayerAction::StartDestroyBlock | PlayerAction::StopDestroyBlock
            | PlayerAction::AbortDestroyBlock
    );
    if game_mode == GameMode::Spectator {
        return ActionOutcome::SpectatorRejected;
    }
    if destroy && !is_within_build_height(pos) {
        return ActionOutcome::OutsideBuildHeight;
    }
    if matches!(action, PlayerAction::StartDestroyBlock | PlayerAction::StopDestroyBlock)
        && is_spawn_protected(protection.radius, protection.spawn_x, protection.spawn_z, pos) {
        return ActionOutcome::SpawnProtected;
    }
    if destroy && !within_reach {
        return ActionOutcome::OutOfReach;
    }
    match action {
        PlayerAction::StartDestroyBlock => {
            if game_mode == GameMode::Creative {
                ActionOutcome::BreakBlock
            } else {
                mining.start_pos = Some(pos);
                mining.start_time_ms = Some(now_ms);
                ActionOutcome::MiningStarted
            }
        },
        PlayerAction::StopDestroyBlock => {
            if game_mode == GameMode::Creative {
                return ActionOutcome::Acknowledge;
            }
            if mining.start_pos != Some(pos) {
                return ActionOutcome::StopPositionMismatch;
            }
            if let Some(start) = mining.start_time_ms {
                let waited: u64 = if now_ms >= start {
                    now_ms - start
                } else {
                    0
                };
                if waited < MIN_MINING_DURATION_MS {
                    return ActionOutcome::StopTooFast;
                }
            }
            mining.start_pos = None;
            mining.start_time_ms = None;
            ActionOutcome::MiningFinished
        },
        PlayerAction::AbortDestroyBlock => {
            mining.start_pos = None;
            mining.start_time_ms = None;
            ActionOutcome::MiningAborted
        },
        PlayerAction::SwapItemWithOffhand => ActionOutcome::SwapWithOffhand,
        PlayerAction::DropItem => ActionOutcome::DropItem,
        PlayerAction::DropAllItems => ActionOutcome::DropAllItems,
        PlayerAction::ReleaseUseItem => ActionOutcome::Ignored,
    }
}

/// A survival player who starts mining a block and stops on the same block
/// at least [`MIN_MINING_DURATION_MS`] later, with no other digging action
/// in between, breaks it, and the mining state is cleared again.
pub proof fn lemma_mining_completes(
    m: MiningState,
    game_mode: GameMode,
    pos: BlockPos,
    protection: SpawnProtection,
    start: u64,
    stop: u64,
)
    requires
        game_mode == GameMode::Survival || game_mode == GameMode::Adventure,
        spec_within_build_height(pos.y as int),
        !spec_spawn_protected(
            protection.radius as int,
            protection.spawn_x as int,
            protection.spawn_z as int,
            pos,
        ),
        start + MIN_MINING_DURATION_MS <= stop,
    ensures
        ({
            let (m1, o1) = spec_player_action(
                m,
                game_mode,
                PlayerAction::StartDestroyBlock,
                pos,
                protection,
                true,
                start,
            );
            let (m2, o2) = spec_player_action(
                m1,
                game_mode,
                PlayerAction::StopDestroyBlock,
                pos,
                protection,
                true,
                stop,
            );
            o1 == ActionOutcome::MiningStarted && o2 == ActionOutcome::MiningFinished && m2 == idle()
        }),
{
}

/// A survival stop sooner than [`MIN_MINING_DURATION_MS`] after the start
/// is refused and leaves the mining under way.
pub proof fn lemma_mining_too_fast(
    m: MiningState,
    game_mode: GameMode,
    pos: BlockPos,
    protection: SpawnProtection,
    start: u64,
    stop: u64,
)
    requires
        game_mode == GameMode::Survival || game_mode == GameMode::Adventure,
        spec_within_build_height(pos.y as int),
        !spec_spawn_protected(
            protection.radius as int,
            protection.spawn_x as int,
            protection.spawn_z as int,
            pos,
        ),
        start <= stop < start + MIN_MINING_DURATION_MS,
    ensures
        ({
            let (m1, o1) = spec_player_action(
                m,
                game_mode,
                PlayerAction::StartDestroyBlock,
                pos,
                protection,
                true,
                start,
            );
            let (m2, o2) = spec_player_action(
                m1,
                game_mode,
                PlayerAction::StopDestroyBlock,
                pos,
                protection,
                true,
                stop,
            );
            o2 == ActionOutcome::StopTooFast && m2 == m1
        }),
{
}

/// Whatever a player does, a spectator never changes the mining state, and
/// only a survival start records one.
pub proof fn lemma_mining_state_changes(
    m: MiningState,
    game_mode: GameMode,
    action: PlayerAction,
    pos: BlockPos,
    protection: SpawnProtection,
    within_reach: bool,
    now: u64,
)
    ensures
        ({
            let (m1, o) = spec_player_action(m, game_mode, action, pos, protection, within_reach, now);
            &&& game_mode == GameMode::Spectator ==> m1 == m
            &&& (m1.start_pos is Some && m1 != m) ==> o == ActionOutcome::MiningStarted && m1.start_pos
                == Some(pos)
            &&& (m1.start_pos is Some) == (m1.start_time_ms is Some) <== ((m.start_pos is Some) == (
            m.start_time_ms is Some))
        }),
{
}

/// A block is broken only when the player is no spectator, the block lies
/// within the build height, outside spawn protection and within reach,
/// and either a creative player starts digging it or a survival player
/// stops digging the block they started on at least
/// [`MIN_MINING_DURATION_MS`] after that start.
pub proof fn lemma_block_breaks_only_when_allowed(
    m: MiningState,
    game_mode: GameMode,
    action: PlayerAction,
    pos: BlockPos,
    protection: SpawnProtection,
    within_reach: bool,
    now: u64,
)
    requires
        m.wf(),
    ensures
        ({
            let o = spec_player_action(m, game_mode, action, pos, protection, within_reach, now).1;
            (o == ActionOutcome::BreakBlock || o == ActionOutcome::MiningFinished) ==> {
                &&& game_mode != GameMode::Spectator
                &&& spec_within_build_height(pos.y as int)
                &&& !spec_spawn_protected(
                    protection.radius as int,
                    protection.spawn_x as int,
                    protection.spawn_z as int,
                    pos,
                )
                &&& within_reach
                &&& (o == ActionOutcome::BreakBlock ==> game_mode == GameMode::Creative && action
                    == PlayerAction::StartDestroyBlock)
                &&& (o == ActionOutcome::MiningFinished ==> game_mode != GameMode::Creative && action
                    == PlayerAction::StopDestroyBlock && m.start_pos == Some(pos)
                    && m.start_time_ms is Some && elapsed(m.start_time_ms->0, now)
                    >= MIN_MINING_DURATION_MS)
            }
        }),
{
}

/// The item actions of a player who is no spectator do exactly what they
/// name, wherever they point, whatever the protection, reach and time, and
/// leave the mining state alone: `DropItem` drops one item,
/// `DropAllItems` the whole stack (so the two never agree), the swap
/// swaps hands, and releasing a used item does nothing.
pub proof fn lemma_item_actions(
    m: MiningState,
    game_mode: GameMode,
    pos: BlockPos,
    protection: SpawnProtection,
    within_reach: bool,
    now: u64,
)
    requires
        game_mode != GameMode::Spectator,
    ensures
        spec_player_action(m, game_mode, PlayerAction::DropItem, pos, protection, within_reach, now)
            == (m, ActionOutcome::DropItem),
        spec_player_action(m, game_mode, PlayerAction::DropAllItems, pos, protection, within_reach, now)
            == (m, ActionOutcome::DropAllItems),
        spec_player_action(m, game_mode, PlayerAction::SwapItemWithOffhand, pos, protection, within_reach, now)
            == (m, ActionOutcome::SwapWithOffhand),
        spec_player_action(m, game_mode, PlayerAction::ReleaseUseItem, pos, protection, within_reach, now)
            == (m, ActionOutcome::Ignored),
        spec_player_action(m, game_mode, PlayerAction::DropItem, pos, protection, within_reach, now).1
            != spec_player_action(m, game_mode, PlayerAction::DropAllItems, pos, protection, within_reach, now).1,
{
}

/// A spectator's action never changes the mining state and is always
/// answered with a refusal, whatever the action.
pub proof fn lemma_spectator_refused(
    m: MiningState,
    action: PlayerAction,
    pos: BlockPos,
    protection: SpawnProtection,
    within_reach: bool,
    now: u64,
)
    ensures
        spec_player_action(m, GameMode::Spectator, action, pos, protection, within_reach, now)
            == (m, ActionOutcome::SpectatorRejected),
{
}

/// The digging actions, stated directly. A digging action outside the
/// build height is refused with the state kept. Inside it, within reach
/// and outside spawn protection: a creative start breaks the block at
/// once and keeps the state, a survival start records this block and this
/// time; an abort within reach clears the state whatever the protection.
pub proof fn lemma_dig_actions(
    m: MiningState,
    game_mode: GameMode,
    action: PlayerAction,
    pos: BlockPos,
    protection: SpawnProtection,
    now: u64,
)
    requires
        game_mode != GameMode::Spectator,
    ensures
        is_destroy_action(action) && !spec_within_build_height(pos.y as int) ==> spec_player_action(
            m,
            game_mode,
            action,
            pos,
            protection,
            true,
            now,
        ) == (m, ActionOutcome::OutsideBuildHeight),
        spec_within_build_height(pos.y as int) ==> spec_player_action(
            m,
            game_mode,
            PlayerAction::AbortDestroyBlock,
            pos,
            protection,
            true,
            now,
        ) == (MiningState { start_pos: None, start_time_ms: None }, ActionOutcome::MiningAborted),
        spec_within_build_height(pos.y as int) && !spec_spawn_protected(
            protection.radius as int,
            protection.spawn_x as int,
            protection.spawn_z as int,
            pos,
        ) ==> spec_player_action(m, game_mode, PlayerAction::StartDestroyBlock, pos, protection, true, now) == (
        if game_mode == GameMode::Creative {
            (m, ActionOutcome::BreakBlock)
        } else {
            (MiningState { start_pos: Some(pos), start_time_ms: Some(now) }, ActionOutcome::MiningStarted)
        }),
        is_destroy_action(action) && spec_within_build_height(pos.y as int) && (action
            == PlayerAction::AbortDestroyBlock || !spec_spawn_protected(
            protection.radius as int,
            protection.spawn_x as int,
            protection.spawn_z as int,
            pos,
        )) ==> spec_player_action(m, game_mode, action, pos, protection, false, now) == (
            m,
            ActionOutcome::OutOfReach,
        ),
{
}

} // verus!

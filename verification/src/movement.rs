//! Player movement: when speed checks are skipped, the per-player packet
//! rate window, what a movement packet leads to, and which entity movement
//! packets the other players receive.

use vstd::prelude::*;

verus! {

/// Movement packets a player may send per second before the rest are
/// dropped (6 per tick at 20 ticks per second).
pub const MAX_MOVEMENT_PACKETS_PER_SECOND: u32 = 120;

/// The length of the movement rate window in milliseconds.
pub const MOVEMENT_RATE_WINDOW_MS: u64 = 1000;

/// Determines whether speed validation should be skipped.
///
/// Vanilla skips speed checks when:
/// - The player is in creative or spectator mode
/// - The `player_movement_check` game rule is `false`
/// - The player is elytra-flying and `elytra_movement_check` is `false`
///
/// NaN/Infinity rejection and coordinate clamping are never skipped.
pub fn should_skip_speed_check(
    is_creative_or_spectator: bool,
    player_movement_check: bool,
    elytra_movement_check: bool,
    is_fall_flying: bool,
) -> (r: bool)
    ensures
        r == (is_creative_or_spectator || !player_movement_check || (is_fall_flying
            && !elytra_movement_check)),
{
    is_creative_or_spectator || !player_movement_check || (is_fall_flying && !elytra_movement_check)
}

/// A count of packets within a fixed time window that restarts once the
/// window has run out.
#[derive(Clone, Copy, Debug, PartialEq, Eq, Structural)]
pub struct PacketWindow {
    /// Packets counted in the current window.
    pub count: u32,
    /// When the current window started, in milliseconds on a monotonic
    /// clock.
    pub window_start_ms: u64,
}

/// `now - start`, or 0 when the clock reads earlier than `start`.
pub open spec fn since(start: u64, now: u64) -> int {
    if now >= start {
        now - start
    } else {
        0
    }
}

/// The window after one more packet at `now`: a window that has lasted
/// `window_ms` or longer restarts at `now` with this packet as its first.
pub open spec fn spec_record(w: PacketWindow, now: u64, window_ms: u64) -> PacketWindow {
    if since(w.window_start_ms, now) >= window_ms {
        PacketWindow { count: 1, window_start_ms: now }
    } else {
        PacketWindow {
            count: if w.count == u32::MAX {
                u32::MAX
            } else {
                (w.count + 1) as u32
            },
            window_start_ms: w.window_start_ms,
        }
    }
}

impl PacketWindow {
    /// An empty window starting at `now_ms`.
    pub fn new(now_ms: u64) -> (r: PacketWindow)
        ensures
            r == (PacketWindow { count: 0, window_start_ms: now_ms }),
    {
        PacketWindow { count: 0, window_start_ms: now_ms }
    }

    /// Counts one packet arriving at `now_ms` and returns `true` when the
    /// window now holds more than `limit` packets.
    pub fn record(&mut self, now_ms: u64, window_ms: u64, limit: u32) -> (over: bool)
        ensures
            *final(self) == spec_record(*old(self), now_ms, window_ms),
            over == (final(self).count > limit),
    {
        let waited: u64 = if now_ms >= self.window_start_ms {
            now_ms - self.window_start_ms
        } else {
            0
        };
        if waited >= window_ms {
            self.count = 0;
            self.window_start_ms = now_ms;
        }
        self.count = self.count.saturating_add(1);
        self.count > limit
    }
}

/// Within one window the packets let through never number more than the
/// limit: a packet is refused exactly when it would be the `limit + 1`-th or
/// later, and the first packet of a fresh window is always let through
/// when the limit is positive.
pub proof fn lemma_window_bounds(w: PacketWindow, now: u64, window_ms: u64, limit: u32)
    ensures
        spec_record(w, now, window_ms).count > limit ==> spec_record(w, now, window_ms).window_start_ms
            == w.window_start_ms || limit == 0,
        !(spec_record(w, now, window_ms).count > limit) ==> spec_record(w, now, window_ms).count
            <= limit,
        since(w.window_start_ms, now) >= window_ms && limit > 0 ==> spec_record(
            w,
            now,
            window_ms,
        ).count <= limit,
        since(w.window_start_ms, now) < window_ms && w.count < u32::MAX ==> spec_record(
            w,
            now,
            window_ms,
        ).count == w.count + 1,
{
}

/// What happens to a decoded movement packet before it is validated.
#[derive(Clone, Copy, Debug, PartialEq, Eq, Structural)]
pub enum MovementAdmission {
    /// The packet holds NaN or an infinity: disconnect the player.
    Disconnect,
    /// Over [`MAX_MOVEMENT_PACKETS_PER_SECOND`] this second: drop it.
    Throttled,
    /// Validate and apply it.
    Proceed,
}

/// Admits a movement packet: one holding non-finite values disconnects the
/// player without being counted; the others are counted against the
/// per-second window and dropped once over the limit.
pub fn admit_movement(contains_invalid_values: bool, window: &mut PacketWindow, now_ms: u64) -> (r:
    MovementAdmission)
    ensures
        contains_invalid_values ==> r == MovementAdmission::Disconnect && *final(window) == *old(
            window,
        ),
        !contains_invalid_values ==> {
            &&& *final(window) == spec_record(*old(window), now_ms, MOVEMENT_RATE_WINDOW_MS)
            &&& r == if final(window).count > MAX_MOVEMENT_PACKETS_PER_SECOND {
                MovementAdmission::Throttled
            } else {
                MovementAdmission::Proceed
            }
        },
{
    if contains_invalid_values {
        return MovementAdmission::Disconnect;
    }
    if window.record(now_ms, MOVEMENT_RATE_WINDOW_MS, MAX_MOVEMENT_PACKETS_PER_SECOND) {
        MovementAdmission::Throttled
    } else {
        MovementAdmission::Proceed
    }
}

/// The verdict of movement validation: whether the client must be
/// corrected and whether the move is accepted.
#[derive(Clone, Copy, Debug, PartialEq, Eq, Structural)]
pub struct MoveCheck {
    pub has_invalid_values: bool,
    pub is_correction_needed: bool,
    pub is_accepted: bool,
}

/// Lifts the speed limits from a movement check when speed checks are
/// skipped; a rejection for non-finite values stands.
pub fn apply_speed_skip(skip_speed_check: bool, check: MoveCheck) -> (r: MoveCheck)
    ensures
        r == (if skip_speed_check && !check.has_invalid_values {
            MoveCheck { is_correction_needed: false, is_accepted: true, ..check }
        } else {
            check
        }),
{
    if skip_speed_check && !check.has_invalid_values {
        MoveCheck { has_invalid_values: check.has_invalid_values, is_correction_needed: false, is_accepted: true }
    } else {
        check
    }
}

/// Elytra flight ends when the player touches the ground.
pub fn fall_flying_after_move(was_fall_flying: bool, is_on_ground: bool) -> (r: bool)
    ensures
        r == (was_fall_flying && !is_on_ground),
{
    if is_on_ground {
        false
    } else {
        was_fall_flying
    }
}

/// The entity movement packet the other players receive.
#[derive(Clone, Copy, Debug, PartialEq, Eq, Structural)]
pub enum EntityMove {
    /// A position delta with the new rotation.
    PositionAndRotation,
    /// A position delta alone.
    Position,
    /// The full position, when the delta does not fit the delta packet.
    PositionSync,
    /// The rotation alone.
    Rotation,
}

/// What is broadcast for one accepted move.
#[derive(Clone, Copy, Debug, PartialEq, Eq, Structural)]
pub struct MovementBroadcast {
    /// The movement packet, if anything moved.
    pub movement: Option<EntityMove>,
    /// A head rotation packet follows.
    pub head_rotation: bool,
}

/// Which packets broadcast an accepted move: the position counts as changed
/// when the packet carries one that differs from the old; a delta that does
/// not fit is sent as a full position; the head follows every rotation.
pub open spec fn spec_movement_broadcast(
    has_pos: bool,
    position_differs: bool,
    has_rot: bool,
    delta_fits: bool,
) -> MovementBroadcast {
    let pos_changed = has_pos && position_differs;
    if !pos_changed && !has_rot {
        MovementBroadcast { movement: None, head_rotation: false }
    } else if pos_changed {
        MovementBroadcast {
            movement: Some(
                if !delta_fits {
                    EntityMove::PositionSync
                } else if has_rot {
                    EntityMove::PositionAndRotation
                } else {
                    EntityMove::Position
                },
            ),
            head_rotation: has_rot,
        }
    } else {
        MovementBroadcast { movement: Some(EntityMove::Rotation), head_rotation: true }
    }
}

/// Decides which packets broadcast a player's accepted move to the others.
/// `position_differs` is whether the new position differs from the old,
/// `delta_fits` whether the position delta fits the delta packet.
pub fn plan_movement_broadcast(has_pos: bool, position_differs: bool, has_rot: bool, delta_fits: bool) -> (r:
    MovementBroadcast)
    ensures
        r == spec_movement_broadcast(has_pos, position_differs, has_rot, delta_fits),
{
    let pos_changed = has_pos && position_differs;
    let rot_changed = has_rot;
    if !pos_changed && !rot_changed {
        return MovementBroadcast { movement: None, head_rotation: false };
    }
    let movement = if pos_changed && rot_changed {
        if delta_fits {
            EntityMove::PositionAndRotation
        } else {
            EntityMove::PositionSync
        }
    } else if pos_changed {
        if delta_fits {
            EntityMove::Position
        } else {
            EntityMove::PositionSync
        }
    } else {
        EntityMove::Rotation
    };
    MovementBroadcast { movement: Some(movement), head_rotation: rot_changed }
}

/// What the other players see of an accepted move: a head rotation exactly
/// when the packet carries a rotation; nothing at all only when neither the
/// position changed nor a rotation came; a rotation alone (with the head)
/// when the player turned without moving; and, when the position changed,
/// a full position sync exactly when the delta does not fit, otherwise a
/// delta that carries the rotation exactly when one came.
pub proof fn lemma_movement_broadcast(has_pos: bool, position_differs: bool, has_rot: bool, delta_fits: bool)
    ensures
        ({
            let r = spec_movement_broadcast(has_pos, position_differs, has_rot, delta_fits);
            let moved = has_pos && position_differs;
            &&& r.head_rotation == has_rot
            &&& (r.movement is None <==> (!moved && !has_rot))
            &&& (!moved && has_rot ==> r.movement == Some(EntityMove::Rotation))
            &&& (moved ==> (r.movement == Some(EntityMove::PositionSync) <==> !delta_fits))
            &&& (moved && delta_fits ==> r.movement == Some(
                if has_rot {
                    EntityMove::PositionAndRotation
                } else {
                    EntityMove::Position
                },
            ))
            &&& (r.movement == Some(EntityMove::Rotation) ==> !moved && has_rot)
        }),
{
}
} // verus!

//! Per-player play-session decisions: keepalive pings and latency, which
//! broadcasts reach a player, teleport confirmations to resend, and the
//! small rules applied to client settings, swings, abilities and command
//! permissions.

use vstd::prelude::*;
use crate::movement::since;
use crate::blocks::GameMode;

verus! {

/// Highest registered serverbound play packet id (0x44); larger or negative
/// ids are unknown.
pub const MAX_SERVERBOUND_PLAY_ID: i32 = 0x44;

/// An unconfirmed teleport is resent after this many milliseconds (20
/// ticks).
pub const TELEPORT_RESEND_INTERVAL_MS: u64 = 1000;

/// Bitmask of the hat model part (bit 6) in the skin customisation byte.
pub const HAT_MASK: u8 = 64;

/// Lowest view distance a client may ask for.
pub const MIN_VIEW_DISTANCE: i32 = 2;

/// The keepalive exchange of one connection.
#[derive(Clone, Copy, Debug, PartialEq, Eq, Structural)]
pub struct Keepalive {
    /// A ping was sent and not yet answered.
    pub pending: bool,
    /// The id of the last ping.
    pub challenge: i64,
    /// When the last ping was sent, in milliseconds on a monotonic clock.
    pub sent_at_ms: u64,
}

/// What the keepalive timer leads to.
#[derive(Clone, Copy, Debug, PartialEq, Eq, Structural)]
pub enum KeepaliveTick {
    /// The last ping went unanswered for the whole timeout: disconnect.
    TimedOut,
    /// Send a ping with this id.
    SendPing(i64),
    /// A ping is pending but the timeout has not run out.
    Wait,
}

/// What a keepalive response leads to.
#[derive(Clone, Copy, Debug, PartialEq, Eq, Structural)]
pub enum KeepaliveReply {
    /// The pending ping was answered: broadcast the new latency.
    Accepted(i32),
    /// No ping was pending or the id differs: disconnect.
    Mismatch,
}

/// Rust's `/` on integers: the quotient rounded toward zero.
pub open spec fn div_toward_zero(a: int, b: int) -> int
    recommends
        b > 0,
{
    if a >= 0 {
        a / b
    } else {
        -((-a) / b)
    }
}

/// The latency after a new sample: an exponential moving average that
/// weights the old value 3 to 1, `(old * 3 + sample) / 4`.
pub open spec fn spec_latency(old: int, sample: int) -> int {
    div_toward_zero(old * 3 + sample, 4)
}

impl Keepalive {
    /// No ping sent yet.
    pub fn new(now_ms: u64) -> (r: Keepalive)
        ensures
            r == (Keepalive { pending: false, challenge: 0, sent_at_ms: now_ms }),
    {
        Keepalive { pending: false, challenge: 0, sent_at_ms: now_ms }
    }

    /// The keepalive timer fired at `now_ms`: with a ping pending, the
    /// connection times out once `timeout_ms` have passed since it was sent;
    /// otherwise a new ping with id `ping_id` (the wall-clock milliseconds)
    /// is sent.
    pub fn on_timer(&mut self, now_ms: u64, ping_id: i64, timeout_ms: u64) -> (r: KeepaliveTick)
        ensures
            old(self).pending ==> *final(self) == *old(self) && r == (if since(
                old(self).sent_at_ms,
                now_ms,
            ) >= timeout_ms {
                KeepaliveTick::TimedOut
            } else {
                KeepaliveTick::Wait
            }),
            !old(self).pending ==> *final(self) == (Keepalive {
                pending: true,
                challenge: ping_id,
                sent_at_ms: now_ms,
            }) && r == KeepaliveTick::SendPing(ping_id),
    {
        if self.pending {
            let waited: u64 = if now_ms >= self.sent_at_ms {
                now_ms - self.sent_at_ms
            } else {
                0
            };
            if waited >= timeout_ms {
                KeepaliveTick::TimedOut
            } else {
                KeepaliveTick::Wait
            }
        } else {
            self.challenge = ping_id;
            self.pending = true;
            self.sent_at_ms = now_ms;
            KeepaliveTick::SendPing(ping_id)
        }
    }

    /// A keepalive response with `id` arrived, `sample_ms` after the ping
    /// was sent: it is accepted only when a ping is pending and the id is
    /// that ping's, and then the latency becomes the moving average of
    /// `old_latency` and the sample.
    pub fn on_response(&mut self, id: i64, sample_ms: i32, old_latency: i32) -> (r: KeepaliveReply)
        ensures
            (old(self).pending && id == old(self).challenge) ==> r == KeepaliveReply::Accepted(
                spec_latency(old_latency as int, sample_ms as int) as i32,
            ) && *final(self) == (Keepalive { pending: false, ..*old(self) }),
            !(old(self).pending && id == old(self).challenge) ==> r == KeepaliveReply::Mismatch
                && *final(self) == *old(self),
            r matches KeepaliveReply::Accepted(l) ==> l == spec_latency(
                old_latency as int,
                sample_ms as int,
            ),
    {
        if self.pending && id == self.challenge {
            self.pending = false;
            KeepaliveReply::Accepted(moving_average_latency(old_latency, sample_ms))
        } else {
            KeepaliveReply::Mismatch
        }
    }
}

/// `(old * 3 + sample) / 4`, computed without overflow.
pub fn moving_average_latency(old: i32, sample: i32) -> (r: i32)
    ensures
        r == spec_latency(old as int, sample as int),
{
    let num: i64 = old as i64 * 3 + sample as i64;
    let q: i64 = if num >= 0 {
        num / 4
    } else {
        -((-num) / 4)
    };
    q as i32
}

/// A ping is answered at most once: after an accepted response no ping is
/// pending, so the same response again is a mismatch.
pub proof fn lemma_keepalive_answered_once(k: Keepalive, id: i64)
    requires
        k.pending && id == k.challenge,
    ensures
        !(Keepalive { pending: false, ..k }).pending,
{
}

/// `true` when a broadcast reaches the player with entity id `my_entity_id`:
/// it targets nobody in particular or this player, and does not exclude
/// this player.
pub open spec fn spec_delivers(target_entity: Option<i32>, exclude_entity: Option<i32>, my_entity_id: i32) -> bool {
    (target_entity is None || target_entity == Some(my_entity_id)) && exclude_entity != Some(
        my_entity_id,
    )
}

/// Decides whether a broadcast message goes to this player.
pub fn should_deliver(target_entity: Option<i32>, exclude_entity: Option<i32>, my_entity_id: i32) -> (r:
    bool)
    ensures
        r == spec_delivers(target_entity, exclude_entity, my_entity_id),
{
    if let Some(target_id) = target_entity {
        if target_id != my_entity_id {
            return false;
        }
    }
    if let Some(exclude_id) = exclude_entity {
        if exclude_id == my_entity_id {
            return false;
        }
    }
    true
}

/// Picks the unconfirmed teleports to resend: those last sent
/// [`TELEPORT_RESEND_INTERVAL_MS`] or more before `now_ms`. Their send
/// times become `now_ms`; the indices come out in ascending order.
pub fn teleports_to_resend(sent_at_ms: &mut Vec<u64>, now_ms: u64) -> (due: Vec<usize>)
    ensures
        final(sent_at_ms)@.len() == old(sent_at_ms)@.len(),
        forall|i: int|
            0 <= i < old(sent_at_ms)@.len() ==> #[trigger] final(sent_at_ms)@[i] == if since(
                old(sent_at_ms)@[i],
                now_ms,
            ) >= TELEPORT_RESEND_INTERVAL_MS {
                now_ms
            } else {
                old(sent_at_ms)@[i]
            },
        forall|j: int| 0 <= j < due@.len() ==> #[trigger] due@[j] < old(sent_at_ms)@.len(),
        forall|j: int, k: int| 0 <= j < k < due@.len() ==> #[trigger] due@[j] < #[trigger] due@[k],
        forall|i: int|
            0 <= i < old(sent_at_ms)@.len() ==> (since(old(sent_at_ms)@[i], now_ms)
                >= TELEPORT_RESEND_INTERVAL_MS <==> exists|j: int|
                0 <= j < due@.len() && #[trigger] due@[j] == i),
{
    let ghost before = sent_at_ms@;
    let mut due: Vec<usize> = Vec::new();
    let mut i: usize = 0;
    while i < sent_at_ms.len()
        invariant
            i <= sent_at_ms@.len(),
            sent_at_ms@.len() == before.len(),
            forall|t: int| i <= t < before.len() ==> #[trigger] sent_at_ms@[t] == before[t],
            forall|t: int|
                0 <= t < i ==> #[trigger] sent_at_ms@[t] == if since(before[t], now_ms)
                    >= TELEPORT_RESEND_INTERVAL_MS {
                    now_ms
                } else {
                    before[t]
                },
            forall|j: int| 0 <= j < due@.len() ==> #[trigger] due@[j] < i,
            forall|j: int, k: int| 0 <= j < k < due@.len() ==> #[trigger] due@[j] < #[trigger] due@[k],
            forall|t: int|
                0 <= t < i ==> (since(before[t], now_ms) >= TELEPORT_RESEND_INTERVAL_MS <==> exists|j: int|
                    0 <= j < due@.len() && #[trigger] due@[j] == t),
        decreases before.len() - i,
    {
        let sent = sent_at_ms[i];
        let waited: u64 = if now_ms >= sent {
            now_ms - sent
        } else {
            0
        };
        let ghost due_before = due@;
        if waited >= TELEPORT_RESEND_INTERVAL_MS {
            sent_at_ms.set(i, now_ms);
            due.push(i);
            proof {
                assert(due@[due@.len() - 1] == i);
                assert forall|t: int|
                    0 <= t < i + 1 implies (since(before[t], now_ms) >= TELEPORT_RESEND_INTERVAL_MS
                    <==> exists|j: int| 0 <= j < due@.len() && #[trigger] due@[j] == t) by {
                    if t < i {
                        if exists|j: int| 0 <= j < due_before.len() && #[trigger] due_before[j] == t {
                            let j = choose|j: int| 0 <= j < due_before.len() && #[trigger] due_before[j] == t;
                            assert(due@[j] == t);
                        }
                        if exists|j: int| 0 <= j < due@.len() && #[trigger] due@[j] == t {
                            let j = choose|j: int| 0 <= j < due@.len() && #[trigger] due@[j] == t;
                            assert(j < due_before.len());
                            assert(due_before[j] == t);
                        }
                    } else {
                        assert(due@[due@.len() - 1] == t);
                    }
                }
            }
        } else {
            proof {
                assert forall|t: int|
                    0 <= t < i + 1 implies (since(before[t], now_ms) >= TELEPORT_RESEND_INTERVAL_MS
                    <==> exists|j: int| 0 <= j < due@.len() && #[trigger] due@[j] == t) by {
                    if t == i {
                        if exists|j: int| 0 <= j < due@.len() && #[trigger] due@[j] == t {
                            let j = choose|j: int| 0 <= j < due@.len() && #[trigger] due@[j] == t;
                            assert(due@[j] < i);
                        }
                    }
                }
            }
        }
        i = i + 1;
    }
    due
}

/// The view distance used for a client: its request clamped into
/// `2..=max_view_distance`.
pub fn clamp_view_distance(requested: i32, max_view_distance: i32) -> (r: i32)
    requires
        MIN_VIEW_DISTANCE <= max_view_distance,
    ensures
        r == (if requested < MIN_VIEW_DISTANCE {
            MIN_VIEW_DISTANCE
        } else if requested > max_view_distance {
            max_view_distance
        } else {
            requested
        }),
{
    if requested < MIN_VIEW_DISTANCE {
        MIN_VIEW_DISTANCE
    } else if requested > max_view_distance {
        max_view_distance
    } else {
        requested
    }
}

/// Which broadcasts a skin customisation change needs: whether the skin
/// changed at all, and whether the hat part changed.
pub fn skin_change(old_skin: u8, new_skin: u8) -> (r: (bool, bool))
    ensures
        r.0 == (old_skin != new_skin),
        r.1 == ((old_skin & HAT_MASK) != (new_skin & HAT_MASK)),
{
    (old_skin != new_skin, (old_skin & HAT_MASK) != (new_skin & HAT_MASK))
}

/// `true` when the skin customisation shows the hat part.
pub fn is_hat_visible(skin: u8) -> (r: bool)
    ensures
        r == ((skin & HAT_MASK) != 0),
{
    (skin & HAT_MASK) != 0
}

/// A hat change is always a skin change.
pub proof fn lemma_hat_change_is_skin_change(old_skin: u8, new_skin: u8)
    ensures
        (old_skin & HAT_MASK) != (new_skin & HAT_MASK) ==> old_skin != new_skin,
{
}

/// The animation another player sees for a swing: 3 (off hand) for hand 1,
/// 0 (main hand) otherwise.
pub fn swing_animation(hand: i32) -> (r: u8)
    ensures
        r == (if hand == 1 {
            3u8
        } else {
            0u8
        }),
{
    if hand == 1 {
        3
    } else {
        0
    }
}

/// A player flies when the client asks to and the player may fly.
pub fn flying_after_abilities(requested_flying: bool, can_fly: bool) -> (r: bool)
    ensures
        r == (requested_flying && can_fly),
{
    requested_flying && can_fly
}

/// The permission level a command runs with: the player's operator level
/// clamped into 0–4.
pub fn command_permission_level(op_level: i32) -> (r: u32)
    ensures
        r == (if op_level < 0 {
            0
        } else if op_level > 4 {
            4
        } else {
            op_level as int
        }),
{
    if op_level < 0 {
        0
    } else if op_level > 4 {
        4
    } else {
        op_level as u32
    }
}

/// `true` for a packet id in the registered serverbound play range
/// `0..=0x44`.
pub fn is_registered_play_packet(id: i32) -> (r: bool)
    ensures
        r == (0 <= id <= MAX_SERVERBOUND_PLAY_ID),
{
    0 <= id && id <= MAX_SERVERBOUND_PLAY_ID
}

/// Bit of the shared entity flags set while crouching.
pub const FLAG_CROUCHING: u8 = 1;
/// Bit of the shared entity flags set while sprinting.
pub const FLAG_SPRINTING: u8 = 3;
/// Bit of the shared entity flags set while flying with an elytra.
pub const FLAG_FALL_FLYING: u8 = 7;
/// The pose of a crouching player.
pub const POSE_CROUCHING: i32 = 5;
/// The pose of a standing player.
pub const POSE_STANDING: i32 = 0;

/// The shared entity flags byte of a player: the crouching, sprinting and
/// elytra-flying bits set as the player does each.
pub fn build_shared_flags(sneaking: bool, sprinting: bool, fall_flying: bool) -> (r: u8)
    ensures
        r == (if sneaking {
            2u8
        } else {
            0u8
        }) + (if sprinting {
            8u8
        } else {
            0u8
        }) + (if fall_flying {
            128u8
        } else {
            0u8
        }),
{
    let crouch: u8 = if sneaking {
        1u8 << FLAG_CROUCHING
    } else {
        0u8
    };
    let sprint: u8 = if sprinting {
        1u8 << FLAG_SPRINTING
    } else {
        0u8
    };
    let glide: u8 = if fall_flying {
        1u8 << FLAG_FALL_FLYING
    } else {
        0u8
    };
    assert(1u8 << 1u8 == 2u8 && 1u8 << 3u8 == 8u8 && 1u8 << 7u8 == 128u8) by (bit_vector);
    assert(crouch | sprint | glide == crouch + sprint + glide) by (bit_vector)
        requires
            crouch == 0u8 || crouch == 2u8,
            sprint == 0u8 || sprint == 8u8,
            glide == 0u8 || glide == 128u8,
    ;
    crouch | sprint | glide
}

/// What a player input packet changes: the new sneaking and sprinting
/// state, whether the others must be told (either changed), and the pose
/// to show them.
pub fn player_input_change(old_sneaking: bool, old_sprinting: bool, shift: bool, sprint: bool) -> (r: (
    bool,
    i32,
))
    ensures
        r.0 == (old_sneaking != shift || old_sprinting != sprint),
        r.1 == (if shift {
            POSE_CROUCHING
        } else {
            POSE_STANDING
        }),
{
    let changed = old_sneaking != shift || old_sprinting != sprint;
    let pose = if shift {
        POSE_CROUCHING
    } else {
        POSE_STANDING
    };
    (changed, pose)
}

/// Number of hotbar slots.
pub const HOTBAR_SIZE: i32 = 9;
/// Inventory index of the off-hand slot.
pub const OFFHAND_SLOT: usize = 40;
/// Equipment slot ids, as the equipment packet numbers them.
pub const EQUIPMENT_MAIN_HAND: u8 = 0;
pub const EQUIPMENT_OFF_HAND: u8 = 1;
pub const EQUIPMENT_FEET: u8 = 2;
pub const EQUIPMENT_LEGS: u8 = 3;
pub const EQUIPMENT_CHEST: u8 = 4;
pub const EQUIPMENT_HEAD: u8 = 5;

/// `true` when a carried-item packet names a hotbar slot (0–8); others are
/// ignored.
pub fn is_valid_hotbar_slot(slot: i32) -> (r: bool)
    ensures
        r == (0 <= slot < HOTBAR_SIZE),
{
    0 <= slot && slot < HOTBAR_SIZE
}

/// The equipment slot that other players see for an inventory slot, if
/// any: the selected hotbar slot is the main hand, slot 40 the off hand,
/// and slots 36–39 the head, chest, legs and feet.
pub fn internal_slot_to_equipment(internal: usize, selected: usize) -> (r: Option<u8>)
    ensures
        r == (if internal == selected && internal < HOTBAR_SIZE {
            Some(EQUIPMENT_MAIN_HAND)
        } else if internal == OFFHAND_SLOT {
            Some(EQUIPMENT_OFF_HAND)
        } else if internal == 36 {
            Some(EQUIPMENT_HEAD)
        } else if internal == 37 {
            Some(EQUIPMENT_CHEST)
        } else if internal == 38 {
            Some(EQUIPMENT_LEGS)
        } else if internal == 39 {
            Some(EQUIPMENT_FEET)
        } else {
            None
        }),
{
    if internal == selected && internal < 9 {
        Some(EQUIPMENT_MAIN_HAND)
    } else if internal == OFFHAND_SLOT {
        Some(EQUIPMENT_OFF_HAND)
    } else if internal == 36 {
        Some(EQUIPMENT_HEAD)
    } else if internal == 37 {
        Some(EQUIPMENT_CHEST)
    } else if internal == 38 {
        Some(EQUIPMENT_LEGS)
    } else if internal == 39 {
        Some(EQUIPMENT_FEET)
    } else {
        None
    }
}

/// What a creative-mode slot packet does.
#[derive(Clone, Copy, Debug, PartialEq, Eq, Structural)]
pub enum CreativeSlotAction {
    /// The player is not in creative mode: rejected.
    NotCreative,
    /// A negative slot asks to drop the item (not acted on).
    Drop,
    /// The protocol slot has no backing storage (the crafting output).
    NoStorage,
    /// The stack holds more items than its maximum stack size: rejected.
    OverStacked,
    /// Store the stack in this inventory index.
    Store(usize),
}

/// Decides a creative-mode slot packet. `storage` is the inventory index
/// that the protocol slot maps to, if any; `stack_empty`, `count` and
/// `max_stack` describe the item sent (an empty stack is never too big).
pub fn creative_slot_action(
    game_mode: GameMode,
    slot: i32,
    storage: Option<usize>,
    stack_empty: bool,
    count: i32,
    max_stack: i32,
) -> (r: CreativeSlotAction)
    ensures
        r == (if game_mode != GameMode::Creative {
            CreativeSlotAction::NotCreative
        } else if slot < 0 {
            CreativeSlotAction::Drop
        } else if storage is None {
            CreativeSlotAction::NoStorage
        } else if !stack_empty && count > max_stack {
            CreativeSlotAction::OverStacked
        } else {
            CreativeSlotAction::Store(storage->0)
        }),
{
    if game_mode != GameMode::Creative {
        return CreativeSlotAction::NotCreative;
    }
    if slot < 0 {
        return CreativeSlotAction::Drop;
    }
    match storage {
        None => CreativeSlotAction::NoStorage,
        Some(index) => {
            if !stack_empty && count > max_stack {
                CreativeSlotAction::OverStacked
            } else {
                CreativeSlotAction::Store(index)
            }
        },
    }
}

/// What picking an item from a block does to the inventory.
#[derive(Clone, Copy, Debug, PartialEq, Eq, Structural)]
pub enum PickAction {
    /// Spectators and adventure players cannot pick blocks; nothing changes.
    Refused,
    /// The item is already in the hotbar: select that slot.
    Select(usize),
    /// The item is in the main inventory: swap it into the best hotbar slot.
    SwapIntoHotbar(usize),
    /// Creative mode without the item: add a fresh stack to the hotbar.
    AddFresh,
    /// Survival mode without the item: nothing to do.
    NotFound,
}

/// Decides a pick-item-from-block request (vanilla `tryPickItem`), given
/// the inventory index where a matching stack was found, if any.
pub fn pick_item_action(game_mode: GameMode, found: Option<usize>) -> (r: PickAction)
    ensures
        r == (if game_mode == GameMode::Spectator || game_mode == GameMode::Adventure {
            PickAction::Refused
        } else {
            match found {
                Some(slot) => if slot < HOTBAR_SIZE {
                    PickAction::Select(slot)
                } else {
                    PickAction::SwapIntoHotbar(slot)
                },
                None => if game_mode == GameMode::Creative {
                    PickAction::AddFresh
                } else {
                    PickAction::NotFound
                },
            }
        }),
{
    if game_mode == GameMode::Spectator || game_mode == GameMode::Adventure {
        return PickAction::Refused;
    }
    match found {
        Some(slot) => {
            if slot < 9 {
                PickAction::Select(slot)
            } else {
                PickAction::SwapIntoHotbar(slot)
            }
        },
        None => {
            if game_mode == GameMode::Creative {
                PickAction::AddFresh
            } else {
                PickAction::NotFound
            }
        },
    }
}

} // verus!

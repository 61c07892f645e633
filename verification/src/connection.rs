//! Connection-level protocol decisions: the per-address connection rate
//! limit, the handshake, status and login steps, and the inbound packet
//! rate limit of the reader task.

use vstd::prelude::*;
use dashmap::DashMap;
use crate::movement::{PacketWindow, since, spec_record};

verus! {

/// The protocol version this server speaks (Minecraft 26.1).
pub const PROTOCOL_VERSION: i32 = 775;

/// Default maximum connections per address within the rate-limiting
/// window.
pub const DEFAULT_MAX_CONNECTIONS_PER_WINDOW: u32 = 10;

/// Default rate-limiting window, in milliseconds (10 seconds).
pub const DEFAULT_RATE_LIMIT_WINDOW_MS: u64 = 10_000;

/// How often stale rate limiter entries are cleaned up, in milliseconds.
pub const RATE_LIMIT_CLEANUP_INTERVAL_MS: u64 = 60_000;

/// Packets a client may send per tick window before it is disconnected.
pub const MAX_PACKETS_PER_TICK: u32 = 500;

/// Length of one inbound rate-limiting window (one server tick), in
/// milliseconds.
pub const TICK_WINDOW_MS: u64 = 50;

/// Longest player name, in bytes.
pub const MAX_PLAYER_NAME_LENGTH: usize = 16;

/// Most players listed in a status response sample.
pub const MAX_STATUS_SAMPLE: usize = 12;

/// What a map of connection attempts holds: per address, the attempts in
/// the current window and when that window started.
pub uninterp spec fn attempt_entries(m: DashMap<u128, (u32, u64)>) -> Map<u128, (u32, u64)>;

/// Calls `DashMap::new`: the map is empty.
#[verifier::external_body]
fn attempts_new() -> (r: DashMap<u128, (u32, u64)>)
    ensures
        attempt_entries(r).dom() == Set::<u128>::empty(),
{
    DashMap::new()
}

/// Calls `DashMap::get` and copies the value found.
#[verifier::external_body]
fn attempts_get(m: &DashMap<u128, (u32, u64)>, key: u128) -> (r: Option<(u32, u64)>)
    ensures
        r == (if attempt_entries(*m).contains_key(key) {
            Some(attempt_entries(*m)[key])
        } else {
            None
        }),
{
    m.get(&key).map(|e| *e.value())
}

/// Calls `DashMap::insert`: the value for `key` becomes `value`.
#[verifier::external_body]
fn attempts_insert(m: &mut DashMap<u128, (u32, u64)>, key: u128, value: (u32, u64))
    ensures
        attempt_entries(*final(m)) == attempt_entries(*old(m)).insert(key, value),
{
    m.insert(key, value);
}

/// Calls `DashMap::retain`, keeping the entries whose window started no
/// more than `window_ms` before `now_ms` (see [`is_fresh`]).
#[verifier::external_body]
fn attempts_retain_fresh(m: &mut DashMap<u128, (u32, u64)>, now_ms: u64, window_ms: u64)
    ensures
        attempt_entries(*final(m)) == attempt_entries(*old(m)).restrict(
            Set::new(
                |k: u128|
                    attempt_entries(*old(m)).contains_key(k) && spec_fresh(
                        attempt_entries(*old(m))[k].1,
                        now_ms,
                        window_ms,
                    ),
            ),
        ),
{
    m.retain(|_, v| is_fresh(v.1, now_ms, window_ms));
}

/// `true` when a window that started at `start` has not yet outlasted
/// `window_ms` at `now`.
pub open spec fn spec_fresh(start: u64, now: u64, window_ms: u64) -> bool {
    since(start, now) <= window_ms
}

/// `true` when a window that started at `start_ms` has not yet outlasted
/// `window_ms` at `now_ms`.
pub fn is_fresh(start_ms: u64, now_ms: u64, window_ms: u64) -> (r: bool)
    ensures
        r == spec_fresh(start_ms, now_ms, window_ms),
{
    let waited: u64 = if now_ms >= start_ms {
        now_ms - start_ms
    } else {
        0
    };
    waited <= window_ms
}

/// One attempt at `now` against the entry `(count, window_start)` of an
/// address (a fresh entry is `(0, now)`): a window that has outlasted
/// `window_ms` restarts with this attempt; otherwise the attempt counts
/// while the count is below `max`, and is refused once it is reached.
pub open spec fn spec_attempt(entry: (u32, u64), now: u64, max: u32, window_ms: u64) -> ((u32, u64), bool) {
    if since(entry.1, now) > window_ms {
        ((1, now), true)
    } else if entry.0 < max {
        (((entry.0 + 1) as u32, entry.1), true)
    } else {
        (entry, false)
    }
}

/// Simple per-address connection rate limiter: at most `max_per_window`
/// connections per address within each window; stale entries are cleaned
/// up periodically.
pub struct ConnectionRateLimiter {
    attempts: DashMap<u128, (u32, u64)>,
    max_per_window: u32,
    window_ms: u64,
}

impl View for ConnectionRateLimiter {
    type V = Map<u128, (u32, u64)>;

    /// The attempts by address.
    closed spec fn view(&self) -> Map<u128, (u32, u64)> {
        attempt_entries(self.attempts)
    }
}

impl ConnectionRateLimiter {

    /// The most connections allowed per window.
    pub closed spec fn spec_max(&self) -> u32 {
        self.max_per_window
    }

    /// The window length in milliseconds.
    pub closed spec fn spec_window(&self) -> u64 {
        self.window_ms
    }

    /// A limiter with no attempts recorded.
    pub fn new(max_per_window: u32, window_ms: u64) -> (r: ConnectionRateLimiter)
        ensures
            r@.dom() == Set::<u128>::empty(),
            r.spec_max() == max_per_window,
            r.spec_window() == window_ms,
    {
        ConnectionRateLimiter { attempts: attempts_new(), max_per_window, window_ms }
    }

    /// Records a connection attempt from `addr` at `now_ms`; returns `true`
    /// if the connection is allowed, `false` if it is rate-limited.
    pub fn check(&mut self, addr: u128, now_ms: u64) -> (allowed: bool)
        ensures
            ({
                let entry = if old(self)@.contains_key(addr) {
                    old(self)@[addr]
                } else {
                    (0u32, now_ms)
                };
                let (next, ok) = spec_attempt(entry, now_ms, old(self).spec_max(), old(self).spec_window());
                &&& allowed == ok
                &&& final(self)@ == old(self)@.insert(addr, next)
            }),
            final(self).spec_max() == old(self).spec_max(),
            final(self).spec_window() == old(self).spec_window(),
    {
        let (count, window_start) = match attempts_get(&self.attempts, addr) {
            Some(e) => e,
            None => (0, now_ms),
        };
        let waited: u64 = if now_ms >= window_start {
            now_ms - window_start
        } else {
            0
        };
        if waited > self.window_ms {
            attempts_insert(&mut self.attempts, addr, (1, now_ms));
            true
        } else if count < self.max_per_window {
            attempts_insert(&mut self.attempts, addr, (count + 1, window_start));
            true
        } else {
            attempts_insert(&mut self.attempts, addr, (count, window_start));
            false
        }
    }

    /// Removes the entries whose window has outlasted the window length.
    pub fn cleanup(&mut self, now_ms: u64)
        ensures
            forall|k: u128|
                #![trigger final(self)@.contains_key(k)]
                final(self)@.contains_key(k) == (old(self)@.contains_key(k) && spec_fresh(
                    old(self)@[k].1,
                    now_ms,
                    old(self).spec_window(),
                )),
            forall|k: u128| #[trigger] final(self)@.contains_key(k) ==> final(self)@[k] == old(self)@[k],
            final(self).spec_max() == old(self).spec_max(),
            final(self).spec_window() == old(self).spec_window(),
    {
        attempts_retain_fresh(&mut self.attempts, now_ms, self.window_ms);
    }
}

/// Within one window an address is let through at most `max` times: an
/// attempt that is allowed without restarting the window leaves a count of
/// at most `max`, and once the count has reached `max` every further
/// attempt in the same window is refused and changes nothing.
pub proof fn lemma_connection_limit(entry: (u32, u64), now: u64, max: u32, window_ms: u64)
    requires
        entry.0 <= max,
    ensures
        spec_attempt(entry, now, max, window_ms).0.0 <= max || (max == 0 && spec_attempt(
            entry,
            now,
            max,
            window_ms,
        ).0.0 == 1),
        since(entry.1, now) <= window_ms && entry.0 == max ==> spec_attempt(entry, now, max, window_ms)
            == (entry, false),
        since(entry.1, now) <= window_ms && entry.0 < max ==> spec_attempt(
            entry,
            now,
            max,
            window_ms,
        ).0.0 == entry.0 + 1,
{
}

/// The packet counter of a reader task: counts one inbound packet at
/// `now_ms` against the per-tick window and returns `true` when the client
/// has sent more than [`MAX_PACKETS_PER_TICK`] packets in it, which
/// disconnects the client.
pub fn reader_rate_exceeded(window: &mut PacketWindow, now_ms: u64) -> (exceeded: bool)
    ensures
        *final(window) == spec_record(*old(window), now_ms, TICK_WINDOW_MS),
        exceeded == (final(window).count > MAX_PACKETS_PER_TICK),
{
    window.record(now_ms, TICK_WINDOW_MS, MAX_PACKETS_PER_TICK)
}

/// The connection states of the protocol.
#[derive(Clone, Copy, Debug, PartialEq, Eq, Structural)]
pub enum ConnectionState {
    Handshaking,
    Status,
    Login,
    Configuration,
    Play,
}

/// What the client intends after the handshake.
#[derive(Clone, Copy, Debug, PartialEq, Eq, Structural)]
pub enum ClientIntent {
    Status,
    Login,
    Transfer,
}

/// What a handshake packet leads to.
#[derive(Clone, Copy, Debug, PartialEq, Eq, Structural)]
pub enum HandshakeOutcome {
    /// Not the intention packet: ignore it and stay in the handshake.
    Ignore,
    /// A login or transfer with another protocol version: disconnect.
    VersionMismatch,
    /// Move on to the given state.
    Next(ConnectionState),
}

/// The outcome of a handshake packet: only the intention packet counts; a
/// login or transfer must speak [`PROTOCOL_VERSION`] (a status ping may
/// speak any); status goes to `Status`, login and transfer to `Login`.
pub open spec fn spec_handshake(is_intention_packet: bool, intent: ClientIntent, protocol_version: i32) -> HandshakeOutcome {
    if !is_intention_packet {
        HandshakeOutcome::Ignore
    } else if intent != ClientIntent::Status && protocol_version != PROTOCOL_VERSION {
        HandshakeOutcome::VersionMismatch
    } else if intent == ClientIntent::Status {
        HandshakeOutcome::Next(ConnectionState::Status)
    } else {
        HandshakeOutcome::Next(ConnectionState::Login)
    }
}

/// Processes the handshake packet: `is_intention_packet` is whether its id
/// is that of the client intention packet.
pub fn handle_handshake(is_intention_packet: bool, intent: ClientIntent, protocol_version: i32) -> (r:
    HandshakeOutcome)
    ensures
        r == spec_handshake(is_intention_packet, intent, protocol_version),
{
    if !is_intention_packet {
        return HandshakeOutcome::Ignore;
    }
    if matches!(intent, ClientIntent::Login | ClientIntent::Transfer) && protocol_version
        != PROTOCOL_VERSION {
        return HandshakeOutcome::VersionMismatch;
    }
    match intent {
        ClientIntent::Status => HandshakeOutcome::Next(ConnectionState::Status),
        ClientIntent::Login | ClientIntent::Transfer => HandshakeOutcome::Next(ConnectionState::Login),
    }
}

/// The status-state packets.
#[derive(Clone, Copy, Debug, PartialEq, Eq, Structural)]
pub enum StatusPacket {
    StatusRequest,
    PingRequest,
    Other,
}

/// What a status-state packet leads to.
#[derive(Clone, Copy, Debug, PartialEq, Eq, Structural)]
pub enum StatusAction {
    /// A second status request: disconnect.
    Disconnect,
    /// Send the server status.
    SendStatus,
    /// Answer the ping and close the connection.
    PongAndClose,
    /// An unknown packet: ignore it.
    Ignore,
}

/// Processes a status-state packet: the status may be asked for once, a
/// ping ends the exchange.
pub fn handle_status(packet: StatusPacket, has_requested_status: &mut bool) -> (r: StatusAction)
    ensures
        r == match packet {
            StatusPacket::StatusRequest => if *old(has_requested_status) {
                StatusAction::Disconnect
            } else {
                StatusAction::SendStatus
            },
            StatusPacket::PingRequest => StatusAction::PongAndClose,
            StatusPacket::Other => StatusAction::Ignore,
        },
        *final(has_requested_status) == (*old(has_requested_status) || packet
            == StatusPacket::StatusRequest),
{
    match packet {
        StatusPacket::StatusRequest => {
            if *has_requested_status {
                return StatusAction::Disconnect;
            }
            *has_requested_status = true;
            StatusAction::SendStatus
        },
        StatusPacket::PingRequest => StatusAction::PongAndClose,
        StatusPacket::Other => StatusAction::Ignore,
    }
}

/// How many online players a status response lists (vanilla caps the
/// sample at [`MAX_STATUS_SAMPLE`]).
pub fn status_sample_size(online: usize) -> (r: usize)
    ensures
        r == (if online < MAX_STATUS_SAMPLE {
            online
        } else {
            MAX_STATUS_SAMPLE
        }),
{
    if online < MAX_STATUS_SAMPLE {
        online
    } else {
        MAX_STATUS_SAMPLE
    }
}

/// `true` when a player name is acceptable at login: 1 to 16 bytes.
pub fn is_valid_player_name(name: &str) -> (r: bool)
    ensures
        r == (name@.len() > 0 && name.len() <= MAX_PLAYER_NAME_LENGTH),
{
    !name.is_empty() && name.len() <= MAX_PLAYER_NAME_LENGTH
}

/// The compression threshold to enable after login: none when the
/// configured threshold is negative.
pub fn login_compression(threshold: i32) -> (r: Option<usize>)
    ensures
        r == (if threshold >= 0 {
            Some(threshold as usize)
        } else {
            None
        }),
{
    if threshold >= 0 {
        Some(threshold as usize)
    } else {
        None
    }
}

/// The steps of the configuration state.
#[derive(Clone, Copy, Debug, PartialEq, Eq, Structural)]
pub enum ConfigurationPhase {
    /// The known packs were offered; waiting for the client's answer.
    AwaitingKnownPacks,
    /// Registries, tags, features and the finish packet were sent; waiting
    /// for the client to finish.
    AwaitingFinish,
    /// The client finished: on to play.
    Done,
}

/// The serverbound configuration packets.
#[derive(Clone, Copy, Debug, PartialEq, Eq, Structural)]
pub enum ConfigurationPacket {
    ClientInformation,
    CustomPayload,
    SelectKnownPacks,
    FinishConfiguration,
    Other,
}

/// What a configuration packet leads to.
#[derive(Clone, Copy, Debug, PartialEq, Eq, Structural)]
pub enum ConfigurationAction {
    /// Keep the client information it carries (the last one wins).
    StoreClientInformation,
    /// Ignore it (a custom payload such as the client brand).
    Ignore,
    /// Send the registries, tags, enabled features and the finish packet.
    SendRegistries,
    /// Configuration is complete: enter play.
    EnterPlay,
    /// An unexpected packet: disconnect the client.
    Disconnect(ConfigurationFault),
}

/// Why a configuration packet disconnects the client.
#[derive(Clone, Copy, Debug, PartialEq, Eq, Structural)]
pub enum ConfigurationFault {
    /// Anything but the known packs answer while it is awaited.
    UnexpectedPacket,
    /// Anything but the finish acknowledgement while it is awaited.
    ExpectedFinish,
}

impl ConfigurationFault {
    /// The disconnect reason sent to the client.
    pub fn reason(&self) -> (r: &'static str)
        ensures
            *self == ConfigurationFault::UnexpectedPacket ==> r@ == "Unexpected packet during configuration"@,
            *self == ConfigurationFault::ExpectedFinish ==> r@
                == "Unexpected packet — expected finish configuration"@,
    {
        match self {
            ConfigurationFault::UnexpectedPacket => "Unexpected packet during configuration",
            ConfigurationFault::ExpectedFinish => "Unexpected packet — expected finish configuration",
        }
    }
}

/// The next phase and the action for one configuration packet: client
/// information and custom payloads may come at any time; the known packs
/// answer moves on to the registries, the finish acknowledgement ends the
/// state, and anything else disconnects.
pub open spec fn spec_configuration_step(phase: ConfigurationPhase, packet: ConfigurationPacket) -> (
    ConfigurationPhase,
    bool,
) {
    match (phase, packet) {
        (ConfigurationPhase::Done, _) => (phase, false),
        (_, ConfigurationPacket::ClientInformation) => (phase, true),
        (_, ConfigurationPacket::CustomPayload) => (phase, true),
        (ConfigurationPhase::AwaitingKnownPacks, ConfigurationPacket::SelectKnownPacks) => (
            ConfigurationPhase::AwaitingFinish,
            true,
        ),
        (ConfigurationPhase::AwaitingFinish, ConfigurationPacket::FinishConfiguration) => (
            ConfigurationPhase::Done,
            true,
        ),
        _ => (phase, false),
    }
}

/// Advances the configuration state by one serverbound packet.
pub fn configuration_step(phase: &mut ConfigurationPhase, packet: ConfigurationPacket) -> (r:
    ConfigurationAction)
    requires
        *old(phase) != ConfigurationPhase::Done,
    ensures
        (*final(phase), !(r is Disconnect)) == spec_configuration_step(*old(phase), packet),
        r == match packet {
            ConfigurationPacket::ClientInformation => ConfigurationAction::StoreClientInformation,
            ConfigurationPacket::CustomPayload => ConfigurationAction::Ignore,
            ConfigurationPacket::SelectKnownPacks => if *old(phase)
                == ConfigurationPhase::AwaitingKnownPacks {
                ConfigurationAction::SendRegistries
            } else {
                ConfigurationAction::Disconnect(ConfigurationFault::ExpectedFinish)
            },
            ConfigurationPacket::FinishConfiguration => if *old(phase)
                == ConfigurationPhase::AwaitingFinish {
                ConfigurationAction::EnterPlay
            } else {
                ConfigurationAction::Disconnect(ConfigurationFault::UnexpectedPacket)
            },
            ConfigurationPacket::Other => if *old(phase) == ConfigurationPhase::AwaitingKnownPacks {
                ConfigurationAction::Disconnect(ConfigurationFault::UnexpectedPacket)
            } else {
                ConfigurationAction::Disconnect(ConfigurationFault::ExpectedFinish)
            },
        },
{
    match packet {
        ConfigurationPacket::ClientInformation => ConfigurationAction::StoreClientInformation,
        ConfigurationPacket::CustomPayload => ConfigurationAction::Ignore,
        ConfigurationPacket::SelectKnownPacks => {
            if *phase == ConfigurationPhase::AwaitingKnownPacks {
                *phase = ConfigurationPhase::AwaitingFinish;
                ConfigurationAction::SendRegistries
            } else {
                ConfigurationAction::Disconnect(ConfigurationFault::ExpectedFinish)
            }
        },
        ConfigurationPacket::FinishConfiguration => {
            if *phase == ConfigurationPhase::AwaitingFinish {
                *phase = ConfigurationPhase::Done;
                ConfigurationAction::EnterPlay
            } else {
                ConfigurationAction::Disconnect(ConfigurationFault::UnexpectedPacket)
            }
        },
        ConfigurationPacket::Other => {
            if *phase == ConfigurationPhase::AwaitingKnownPacks {
                ConfigurationAction::Disconnect(ConfigurationFault::UnexpectedPacket)
            } else {
                ConfigurationAction::Disconnect(ConfigurationFault::ExpectedFinish)
            }
        },
    }
}

/// The configuration state only moves forward: the registries are sent at
/// most once, and play is entered only after them.
pub proof fn lemma_configuration_forward(phase: ConfigurationPhase, packet: ConfigurationPacket)
    ensures
        spec_configuration_step(phase, packet).0 == ConfigurationPhase::Done ==> phase
            == ConfigurationPhase::Done || phase == ConfigurationPhase::AwaitingFinish,
        phase == ConfigurationPhase::AwaitingFinish ==> spec_configuration_step(phase, packet).0
            != ConfigurationPhase::AwaitingKnownPacks,
        phase == ConfigurationPhase::Done ==> spec_configuration_step(phase, packet).0
            == ConfigurationPhase::Done,
{
}

/// The configuration steps, stated directly: client information and custom
/// payloads never disconnect and never change the phase; the known-packs
/// answer moves from awaiting it to awaiting the finish; the finish
/// acknowledgement moves from awaiting it to done; any other packet, or one
/// of these in the wrong phase, disconnects without changing the phase.
pub proof fn lemma_configuration_steps(phase: ConfigurationPhase, packet: ConfigurationPacket)
    requires
        phase != ConfigurationPhase::Done,
    ensures
        packet == ConfigurationPacket::ClientInformation || packet == ConfigurationPacket::CustomPayload
            ==> spec_configuration_step(phase, packet) == (phase, true),
        phase == ConfigurationPhase::AwaitingKnownPacks && packet == ConfigurationPacket::SelectKnownPacks
            ==> spec_configuration_step(phase, packet) == (ConfigurationPhase::AwaitingFinish, true),
        phase == ConfigurationPhase::AwaitingFinish && packet == ConfigurationPacket::FinishConfiguration
            ==> spec_configuration_step(phase, packet) == (ConfigurationPhase::Done, true),
        packet == ConfigurationPacket::Other ==> spec_configuration_step(phase, packet) == (phase, false),
        phase == ConfigurationPhase::AwaitingFinish && packet == ConfigurationPacket::SelectKnownPacks
            ==> spec_configuration_step(phase, packet) == (phase, false),
        phase == ConfigurationPhase::AwaitingKnownPacks && packet
            == ConfigurationPacket::FinishConfiguration ==> spec_configuration_step(phase, packet) == (
            phase,
            false,
        ),
{
}

} // verus!
